use lamulana_mw::archipelago::api::{
    APError, ClientPayload, ClientStatus, HintStatus, ItemHandling, LocationChecks, NetworkItem,
    Operation, Permission, ServerPayload, SlotType, StatusUpdate, Sync, Timestamp,
};
use lamulana_mw::archipelago::client::{messages_of, Frame};
use lamulana_mw::archipelago::codec::{encode, list, object, string_map};
use lamulana_mw::archipelago::decode::{decode_message, read_small_code, Decoded};
use lamulana_mw::archipelago::json::{from_text, to_text, JsonField, JsonValue};
use lamulana_mw::archipelago::protocol::network_version;

fn tree(text: &str) -> JsonValue {
    let mut list = messages_of(Frame::Text(format!("[{}]", text).into_bytes())).unwrap();
    list.remove(0)
}

#[test]
fn a_payload_is_framed_as_an_array_of_one_object() {
    assert_eq!(encode(&ClientPayload::Sync(Sync {})).unwrap(), r#"[{"cmd":"Sync"}]"#);
    assert_eq!(
        encode(&ClientPayload::LocationChecks(LocationChecks { locations: vec![7] })).unwrap(),
        r#"[{"cmd":"LocationChecks","locations":[7]}]"#
    );
    assert_eq!(
        encode(&ClientPayload::StatusUpdate(StatusUpdate { status: ClientStatus::ClientConnected })).unwrap(),
        r#"[{"cmd":"StatusUpdate","status":5}]"#
    );
}

#[test]
fn a_tree_is_written_without_blanks() {
    let tree = JsonValue::Object(vec![
        JsonField { name: "z".to_string(), value: JsonValue::Null },
        JsonField { name: "a \"b\"".to_string(), value: JsonValue::Bool(true) },
        JsonField { name: "n".to_string(), value: JsonValue::Int(i64::MIN) },
        JsonField { name: "r".to_string(), value: JsonValue::Real("1.5e3".to_string()) },
        JsonField {
            name: "l".to_string(),
            value: JsonValue::List(vec![
                JsonValue::Bool(false),
                JsonValue::Text("line\nbreak \u{1}\\ é".to_string()),
                JsonValue::List(vec![]),
                JsonValue::Object(vec![]),
                JsonValue::Int(0),
            ]),
        },
    ]);
    let text = to_text(&tree).unwrap();
    assert_eq!(
        text,
        r#"{"z":null,"a \"b\"":true,"n":-9223372036854775808,"r":1.5e3,"l":[false,"line\nbreak \u0001\\ é",[],{},0]}"#
    );
    // what was written reads back, with the members in the order of their names
    match from_text(&text).unwrap() {
        JsonValue::Object(fields) => {
            let names: Vec<&str> = fields.iter().map(|f| f.name.as_str()).collect();
            assert_eq!(names, vec!["a \"b\"", "l", "n", "r", "z"]);
            assert!(matches!(&fields[2].value, JsonValue::Int(i64::MIN)));
            assert!(matches!(&fields[3].value, JsonValue::Real(text) if text == "1500.0"));
            match &fields[1].value {
                JsonValue::List(items) => {
                    assert!(matches!(&items[1], JsonValue::Text(t) if t == "line\nbreak \u{1}\\ é"))
                }
                other => panic!("{:?}", other),
            }
        }
        other => panic!("{:?}", other),
    }
    assert!(from_text("{\"open\":").is_none());
    assert!(from_text("").is_none());
    assert_eq!(to_text(&JsonValue::List(vec![JsonValue::Int(7)])).unwrap(), "[7]");
    assert_eq!(to_text(&JsonValue::text("")).unwrap(), "\"\"");
}

#[test]
fn a_payload_gives_its_tree() {
    match ClientPayload::LocationChecks(LocationChecks { locations: vec![7, 8] }).to_json() {
        JsonValue::Object(fields) => {
            assert_eq!(fields.len(), 2);
            assert_eq!(fields[0].name, "cmd");
            assert!(matches!(&fields[0].value, JsonValue::Text(t) if t == "LocationChecks"));
            assert_eq!(fields[1].name, "locations");
            match &fields[1].value {
                JsonValue::List(items) => {
                    assert!(matches!(items[..], [JsonValue::Int(7), JsonValue::Int(8)]))
                }
                other => panic!("{:?}", other),
            }
        }
        other => panic!("{:?}", other),
    }
    assert!(matches!(network_version().to_json(), JsonValue::Object(fields) if fields.len() == 4));
}

#[test]
fn the_builders_keep_the_order() {
    let built = object(vec![
        JsonValue::member("b", JsonValue::Int(1)),
        JsonValue::member("a", list(vec![JsonValue::Bool(true), JsonValue::Null])),
        JsonValue::member("m", string_map(&vec![("k".to_string(), "v".to_string())])),
    ]);
    match built {
        JsonValue::Object(fields) => {
            assert_eq!(fields[0].name, "b");
            assert_eq!(fields[1].name, "a");
            assert!(matches!(&fields[1].value, JsonValue::List(items) if items.len() == 2));
            assert!(matches!(&fields[2].value, JsonValue::Object(m) if m[0].name == "k"));
        }
        other => panic!("{:?}", other),
    }
}

#[test]
fn the_accessors_read_a_tree() {
    let t = tree(r#"{"n":-3,"big":18446744073709551615,"x":1.5,"s":"text","b":true,"l":[1,2],"t":["a","b"],"mixed":[1,"a"],"o":{"k":null},"z":null}"#);
    assert_eq!(t.int_at("n"), Some(-3));
    assert_eq!(t.int_at("big"), None);
    assert!(matches!(t.field("big"), Some(JsonValue::Real(text)) if text == "18446744073709551615"));
    assert!(matches!(t.field("x"), Some(JsonValue::Real(text)) if text == "1.5"));
    assert_eq!(t.int_at("s"), None);
    assert_eq!(t.int_at("missing"), None);
    assert_eq!(t.text_at("s"), Some("text".to_string()));
    assert_eq!(t.text_at("n"), None);
    assert_eq!(t.bool_at("b"), Some(true));
    assert_eq!(t.bool_at("n"), None);
    assert_eq!(t.ints_at("l"), Some(vec![1, 2]));
    assert_eq!(t.ints_at("mixed"), None);
    assert_eq!(t.ints_at("n"), None);
    assert_eq!(t.texts_at("t"), Some(vec!["a".to_string(), "b".to_string()]));
    assert_eq!(t.texts_at("mixed"), None);
    assert_eq!(t.list_at("mixed").map(|l| l.len()), Some(2));
    assert!(t.list_at("o").is_none());
    assert_eq!(t.object_at("o").map(|m| m.len()), Some(1));
    assert!(t.object_at("l").is_none());
    assert!(t.absent("z"));
    assert!(t.absent("missing"));
    assert!(!t.absent("n"));
    assert!(t.field("z").unwrap().is_null());
    assert!(JsonValue::Int(1).field("n").is_none());
    assert_eq!(JsonValue::Int(4).as_int(), Some(4));
    assert_eq!(JsonValue::Bool(false).as_bool(), Some(false));
    assert_eq!(JsonValue::text("t").as_text(), Some("t".to_string()));
    assert!(JsonValue::ints(&vec![1]).as_list().is_some());
    assert_eq!(JsonValue::strings(&vec!["a".to_string()]).as_texts(), Some(vec!["a".to_string()]));
    assert!(JsonValue::Null.as_object().is_none());
}

#[test]
fn received_items_are_read() {
    let message = tree(r#"{"cmd":"ReceivedItems","index":65535,"items":[{"item":42,"location":-2,"player":3,"flags":4,"more":true},{"flags":0,"player":0,"location":0,"item":0}]}"#);
    match decode_message(&message) {
        Decoded::Message(ServerPayload::ReceivedItems(batch)) => {
            assert_eq!(batch.index, 65535);
            assert_eq!(
                batch.items,
                vec![
                    NetworkItem { item: 42, location: -2, player: 3, flags: 4 },
                    NetworkItem { item: 0, location: 0, player: 0, flags: 0 },
                ]
            );
        }
        other => panic!("{:?}", other),
    }
}

#[test]
fn a_message_that_lacks_something_is_unrecognized() {
    for text in [
        r#"{"cmd":"ReceivedItems","index":65536,"items":[]}"#,
        r#"{"cmd":"ReceivedItems","index":-1,"items":[]}"#,
        r#"{"cmd":"ReceivedItems","index":0}"#,
        r#"{"cmd":"ReceivedItems","index":0,"items":[{"item":1,"location":1,"player":1}]}"#,
        r#"{"cmd":"ReceivedItems","index":0,"items":[{"item":1.5,"location":1,"player":1,"flags":0}]}"#,
        r#"{"cmd":"ConnectionRefused"}"#,
        r#"{"cmd":"ConnectionRefused","errors":[1]}"#,
        r#"{"cmd":"RoomInfo"}"#,
        r#"{"cmd":"Connected","team":0}"#,
        r#"{"cmd":"LocationInfo","locations":[]}"#,
        r#"{"cmd":"connected"}"#,
        r#"{"cmd":7}"#,
        r#"{"index":0,"items":[]}"#,
        r#"[]"#,
        r#"null"#,
        r#""RoomInfo""#,
    ] {
        assert!(matches!(decode_message(&tree(text)), Decoded::Unrecognized), "{}", text);
    }
}

#[test]
fn a_refusal_is_read() {
    match decode_message(&tree(r#"{"cmd":"ConnectionRefused","errors":["InvalidSlot","InvalidGame"]}"#)) {
        Decoded::Message(ServerPayload::ConnectionRefused(refusal)) => {
            assert_eq!(refusal.errors, vec!["InvalidSlot".to_string(), "InvalidGame".to_string()])
        }
        other => panic!("{:?}", other),
    }
}

#[test]
fn the_greeting_is_read() {
    let message = tree(
        r#"{"cmd":"RoomInfo","version":{"major":0,"minor":6,"build":4,"class":"Version"},"generator_version":{"major":0,"minor":5,"build":1,"class":"Version"},"tags":["AP","WebHost"],"password":true,"permissions":{"release":1,"collect":6,"remaining":2,"a":0,"b":7},"hint_cost":10,"location_check_points":2,"games":["La-Mulana"],"datapackage_checksums":{"La-Mulana":"abc"},"seed_name":"seed","time":1712345678.25}"#,
    );
    match decode_message(&message) {
        Decoded::Message(ServerPayload::RoomInfo(info)) => {
            assert_eq!((info.version.major, info.version.minor, info.version.build), (0, 6, 4));
            assert_eq!(info.version.class, "Version");
            assert_eq!((info.generator_version.minor, info.generator_version.build), (5, 1));
            assert_eq!(info.tags, vec!["AP".to_string(), "WebHost".to_string()]);
            assert!(info.password);
            assert_eq!(
                info.permissions,
                vec![
                    ("a".to_string(), Permission::Disabled),
                    ("b".to_string(), Permission::AutoEnabled),
                    ("collect".to_string(), Permission::Auto),
                    ("release".to_string(), Permission::Enabled),
                    ("remaining".to_string(), Permission::Goal),
                ]
            );
            assert_eq!(info.hint_cost, 10);
            assert_eq!(info.location_check_points, 2);
            assert_eq!(info.games, vec!["La-Mulana".to_string()]);
            assert_eq!(info.datapackage_checksums, vec![("La-Mulana".to_string(), "abc".to_string())]);
            assert_eq!(info.seed_name, "seed");
            assert!(matches!(info.time, Timestamp::Fraction(text) if text == "1712345678.25"));
        }
        other => panic!("{:?}", other),
    }
    let whole = message_with_time("12");
    assert!(matches!(
        decode_message(&whole),
        Decoded::Message(ServerPayload::RoomInfo(info)) if matches!(info.time, Timestamp::Whole(12))
    ));
    assert!(matches!(decode_message(&message_with_time("\"noon\"")), Decoded::Unrecognized));
    assert!(matches!(decode_message(&message_with_permission("3")), Decoded::Unrecognized));
    assert!(matches!(decode_message(&message_with_permission("256")), Decoded::Unrecognized));
    assert!(matches!(decode_message(&message_with_permission("1")), Decoded::Message(_)));
}

fn message_with_time(time: &str) -> JsonValue {
    tree(&format!(
        r#"{{"cmd":"RoomInfo","version":{{"major":0,"minor":6,"build":4,"class":"Version"}},"generator_version":{{"major":0,"minor":5,"build":1,"class":"Version"}},"tags":[],"password":false,"permissions":{{}},"hint_cost":0,"location_check_points":0,"games":[],"datapackage_checksums":{{}},"seed_name":"","time":{}}}"#,
        time
    ))
}

fn message_with_permission(code: &str) -> JsonValue {
    tree(&format!(
        r#"{{"cmd":"RoomInfo","version":{{"major":0,"minor":6,"build":4,"class":"Version"}},"generator_version":{{"major":0,"minor":5,"build":1,"class":"Version"}},"tags":[],"password":false,"permissions":{{"release":{}}},"hint_cost":0,"location_check_points":0,"games":[],"datapackage_checksums":{{}},"seed_name":"","time":0}}"#,
        code
    ))
}

#[test]
fn the_admission_is_read() {
    let message = tree(
        r#"{"cmd":"Connected","team":1,"slot":2,"players":[{"team":1,"slot":2,"alias":"L","name":"Lemeza"},{"team":1,"slot":3,"alias":"M","name":"Mulbruk"}],"missing_locations":[7,8],"checked_locations":[9],"slot_data":{"seed":"x"},"slot_info":{"2":{"name":"Lemeza","game":"La-Mulana","type":1,"group_members":[]},"5":{"name":"All","game":"La-Mulana","type":2,"group_members":[2,3]}},"hint_points":4}"#,
    );
    match decode_message(&message) {
        Decoded::Message(ServerPayload::Connected(admission)) => {
            assert_eq!((admission.team, admission.slot, admission.hint_points), (1, 2, 4));
            assert_eq!(admission.players.len(), 2);
            assert_eq!(admission.players[1].slot, 3);
            assert_eq!(admission.players[1].alias, "M");
            assert_eq!(admission.players[1].name, "Mulbruk");
            assert_eq!(admission.missing_locations, vec![7, 8]);
            assert_eq!(admission.checked_locations, vec![9]);
            assert_eq!(admission.slot_data, Some(vec![("seed".to_string(), "x".to_string())]));
            assert_eq!(admission.slot_info.len(), 2);
            assert_eq!(admission.slot_info[0].0, "2");
            assert_eq!(admission.slot_info[0].1.kind, SlotType::Player);
            assert_eq!(admission.slot_info[1].1.kind, SlotType::Group);
            assert_eq!(admission.slot_info[1].1.group_members, vec![2, 3]);
            assert_eq!(admission.slot_info[1].1.name, "All");
        }
        other => panic!("{:?}", other),
    }
    let without = tree(r#"{"cmd":"Connected","team":1,"slot":2,"players":[],"missing_locations":[],"checked_locations":[],"slot_info":{},"hint_points":4}"#);
    assert!(matches!(
        decode_message(&without),
        Decoded::Message(ServerPayload::Connected(admission)) if admission.slot_data.is_none()
    ));
    let wrong = tree(r#"{"cmd":"Connected","team":1,"slot":2,"players":[],"missing_locations":[],"checked_locations":[],"slot_data":{"n":1},"slot_info":{},"hint_points":4}"#);
    assert!(matches!(decode_message(&wrong), Decoded::Unrecognized));
    let slot = tree(r#"{"cmd":"Connected","team":1,"slot":2,"players":[],"missing_locations":[],"checked_locations":[],"slot_info":{"2":{"name":"L","game":"G","type":3,"group_members":[]}},"hint_points":4}"#);
    assert!(matches!(decode_message(&slot), Decoded::Unrecognized));
}

#[test]
fn the_numbers_on_the_wire() {
    assert_eq!(ItemHandling::NeverReceiveItems.code(), 0);
    assert_eq!(ItemHandling::OtherWorldsOnly.code(), 1);
    assert_eq!(ItemHandling::OtherWorldsAndSelf.code(), 3);
    assert_eq!(ItemHandling::OtherWorldsAndStartingInventory.code(), 5);
    assert_eq!(ItemHandling::OtherWorldsSelfAndStartingInventory.code(), 6);
    for code in 0..=255u8 {
        match ItemHandling::from_code(code) {
            Some(policy) => assert_eq!(policy.code(), code),
            None => assert!(![0, 1, 3, 5, 6].contains(&code)),
        }
        match Permission::from_code(code) {
            Some(permission) => assert_eq!(permission.code(), code),
            None => assert!(![0, 1, 2, 6, 7].contains(&code)),
        }
        match SlotType::from_code(code) {
            Some(kind) => assert_eq!(kind.code(), code),
            None => assert!(code > 2),
        }
    }
    for code in 0..=100u16 {
        match HintStatus::from_code(code) {
            Some(status) => assert_eq!(status.code(), code),
            None => assert!(![0, 10, 20, 30, 40].contains(&code)),
        }
        match ClientStatus::from_code(code) {
            Some(status) => assert_eq!(status.code(), code),
            None => assert!(![0, 5, 10, 20, 30].contains(&code)),
        }
    }
    assert_eq!(HintStatus::HintAvoid.code(), 20);
    assert_eq!(ClientStatus::ClientPlaying.code(), 20);
    assert_eq!(Operation::RightShift.name(), "right_shift");
    assert_eq!(Operation::Replace.name(), "replace");
    assert_eq!(read_small_code(&JsonValue::Int(255)), Some(255));
    assert_eq!(read_small_code(&JsonValue::Int(256)), None);
    assert_eq!(read_small_code(&JsonValue::Int(-1)), None);
    assert_eq!(read_small_code(&JsonValue::Null), None);
}

#[test]
fn the_policy_decides_whose_items_are_taken() {
    assert!(!ItemHandling::NeverReceiveItems.accepts(3, 1));
    assert!(!ItemHandling::NeverReceiveItems.accepts(1, 1));
    assert!(ItemHandling::OtherWorldsOnly.accepts(3, 1));
    assert!(!ItemHandling::OtherWorldsOnly.accepts(1, 1));
    assert!(ItemHandling::OtherWorldsAndStartingInventory.accepts(3, 1));
    assert!(!ItemHandling::OtherWorldsAndStartingInventory.accepts(1, 1));
    assert!(ItemHandling::OtherWorldsAndSelf.accepts(1, 1));
    assert!(ItemHandling::OtherWorldsSelfAndStartingInventory.accepts(1, 1));
    assert!(ItemHandling::OtherWorldsSelfAndStartingInventory.accepts(2, 1));
}

#[test]
fn the_errors_have_their_texts() {
    assert_eq!(APError::NoConnection.message(), "not connected");
    assert_eq!(APError::TlsConnectorFailure.message(), "tls connector failed to build");
    assert_eq!(APError::ServerConnectionFailure.message(), "unable to connect to server");
    assert_eq!(APError::WebsocketConnectionFailure.message(), "unable to establish websocket connection");
    assert_eq!(APError::PayloadSerializationFailure.message(), "unable to serialize payload");
    assert_eq!(APError::PayloadWriteFailure.message(), "failed to write payload");
    assert_eq!(APError::PayloadReadFailure.message(), "failed to read payload");
    assert_eq!(APError::BinaryData.message(), "binary data from server");
    assert_eq!(APError::PingPong.message(), "ping/pong from server");
    assert_eq!(APError::ResponseParseFailure.message(), "failed to parse response from server");
    assert_eq!(APError::ResponseFormatFailure.message(), "unable to convert response to string");
    assert_eq!(APError::ProtocolViolation.message(), "unexpected message from server");
}

#[test]
fn the_version_of_the_protocol() {
    let version = network_version();
    assert_eq!((version.major, version.minor, version.build), (0, 5, 1));
    assert_eq!(version.class, "Version");
}
