use lamulana_mw::application::delivery::{GivenItem, PlayerItem};
use lamulana_mw::application::entrypoints::{
    display_item_if_available, game_loop, get_updates_from_server, item_symbol_back_intercept,
    popup_dialog_draw_intercept, reconnect_to_server, SyncEngine,
};
use lamulana_mw::application::overlay::PlayerItemPopup;
use lamulana_mw::application::{Application, HostCall, MessageLine, RoomKey, Routine};
use lamulana_mw::archipelago::api::{
    APError, NetworkItem, ReceivedItems, ServerPayload,
};
use lamulana_mw::archipelago::client::{
    ConnectionState, Frame, Handshake, Reply, Session, Transport,
};
use lamulana_mw::lm_structs::items::{Guard, Item};
use lamulana_mw::screenplay::encode;
use lamulana_mw::{AppConfig, ArchipelagoItem, ArchipelagoPlayer};
use std::collections::HashMap;

fn config() -> AppConfig {
    AppConfig {
        server_url: "archipelago.gg:38281".to_string(),
        password: "".to_string(),
        log_file_name: "lamulanamw.log".to_string(),
        local_player_id: 1,
        log_level: "DEBUG".to_string(),
        players: vec![
            ArchipelagoPlayer { id: 1, name: "Lemeza".to_string() },
            ArchipelagoPlayer { id: 3, name: "Mulbruk".to_string() },
        ],
        item_mapping: vec![ArchipelagoItem {
            flag: 0x863,
            location_id: 7,
            player_id: 1,
            obtain_value: 2,
        }],
    }
}

fn items() -> HashMap<u64, Item> {
    let mut items = HashMap::new();
    items.insert(
        1,
        Item { item_id: 1, item_name: "Chain Whip".to_string(), flag: 0x7d, value: 2, guard: Guard::OwnedOnceInventory },
    );
    items.insert(
        42,
        Item { item_id: 105, item_name: "Coin".to_string(), flag: 0x90, value: 2, guard: Guard::Consumable },
    );
    items
}

fn game(flags: usize) -> Application {
    Application {
        game_init: 1,
        global_flags: vec![0u8; flags],
        inventory: vec![0u16; 114],
        room: RoomKey { field: 1, screen: 2, scene: 0 },
        liveness: HashMap::new(),
        line: MessageLine { script: vec![0x100, 0x000a], font_num: 1 },
        options: Vec::new(),
        option_pos_cx: 7,
        option_pos_cy: 7,
        game_process: 0,
        movement_status: 0,
        warp_menu_status: 0,
        lemeza_pose: 0,
        se: 0,
        calls: Vec::new(),
    }
}

fn connected() -> SyncEngine {
    let mut engine = SyncEngine::new(config(), items()).unwrap();
    engine.client.state = ConnectionState::Connected(Session { team: 0, slot: 1 });
    engine
}

fn grants(app: &Application) -> usize {
    app.calls
        .iter()
        .filter(|call| {
            **call == HostCall::SetViewEventNs { priority: 16, routine: Routine::ItemGetAreaInit }
        })
        .count()
}

#[test]
fn test_game_loop_with_error_from_receive_payload() {
    let mut app = game(2055);
    let mut engine = connected();

    let update = get_updates_from_server(&mut engine, Frame::Failed);
    assert_eq!(update.fault, Some(APError::PayloadReadFailure));

    let report = game_loop(&mut engine, &mut app);

    assert_eq!(engine.inbox.len(), 0);
    assert!(report.reconnect.is_some());
    assert_eq!(engine.client.state, ConnectionState::Connecting(Handshake::Secure));
    assert_eq!(grants(&app), 0);
}

#[test]
fn test_game_loop_getting_item_from_server() {
    let mut app = game(2055);
    let popup_id_address = 0x2e4;
    app.liveness.insert(popup_id_address, 1);
    let mut engine = connected();
    engine.popup_id_address = popup_id_address;
    engine.overlay.popup = Some(PlayerItemPopup {
        popup_id_address,
        popup_id: 0,
        encoded: encode(format!("  {} {}", "Test", "Test")),
        old_line: MessageLine { script: vec![], font_num: 0 },
    });
    engine.inbox.push(ServerPayload::ReceivedItems(ReceivedItems {
        index: 1,
        items: vec![NetworkItem { item: 1, location: 0, player: 0, flags: 0 }],
    }));

    let report = game_loop(&mut engine, &mut app);

    assert_eq!(grants(&app), 1);
    assert_eq!(report.delivered, Some(GivenItem { player_id: 0, item_id: 1 }));
    assert_eq!(engine.queue.in_flight, Some(PlayerItem { player_id: 0, for_player: false }));
    assert_eq!(app.options, vec![1, 160, 120, 39]);
    assert_eq!(app.global_flags[0x7d], 2);
}

#[test]
fn only_the_grant_waits_for_the_game() {
    let mut app = game(4096);
    app.game_init = 0;
    app.global_flags[0x863] = 2;
    let mut engine = connected();
    engine.inbox.push(ServerPayload::ReceivedItems(ReceivedItems {
        index: 0,
        items: vec![NetworkItem { item: 42, location: 11, player: 3, flags: 0 }],
    }));
    let report = game_loop(&mut engine, &mut app);
    assert!(report.reconnect.is_none());
    assert!(report.send.is_some());
    assert!(report.delivered.is_none());
    assert_eq!(engine.queue.pending.len(), 1);
    assert!(engine.inbox.is_empty());

    app.game_init = 1;
    let report = game_loop(&mut engine, &mut app);
    assert!(report.delivered.is_some());
}

#[test]
fn the_loop_reports_a_location_once() {
    let mut app = game(4096);
    let mut engine = connected();

    let report = game_loop(&mut engine, &mut app);
    assert_eq!(report.send, None);

    app.global_flags[0x863] = 2;
    let report = game_loop(&mut engine, &mut app);
    assert_eq!(report.send.as_deref(), Some(r#"[{"cmd":"LocationChecks","locations":[7]}]"#));
    assert_eq!(engine.unconfirmed, vec![7]);

    engine.checks_written(true);
    assert_eq!(engine.reported, vec![7]);
    assert!(engine.unconfirmed.is_empty());

    let report = game_loop(&mut engine, &mut app);
    assert_eq!(report.send, None);
}

#[test]
fn a_failed_report_is_sent_again_after_the_reconnect() {
    let mut app = game(4096);
    app.global_flags[0x863] = 2;
    let mut engine = connected();

    let report = game_loop(&mut engine, &mut app);
    assert!(report.send.is_some());
    engine.checks_written(false);
    assert_eq!(engine.client.state, ConnectionState::Disconnected);
    assert!(engine.reported.is_empty());
    assert!(engine.unconfirmed.is_empty());

    let report = game_loop(&mut engine, &mut app);
    assert!(report.send.is_none());
    assert!(report.reconnect.is_some());

    engine.client.state = ConnectionState::Connected(Session { team: 0, slot: 1 });
    let report = game_loop(&mut engine, &mut app);
    assert_eq!(report.send.as_deref(), Some(r#"[{"cmd":"LocationChecks","locations":[7]}]"#));
}

fn room_info() -> Vec<u8> {
    br#"[{"cmd":"RoomInfo","version":{"major":0,"minor":6,"build":4,"class":"Version"},"generator_version":{"major":0,"minor":6,"build":4,"class":"Version"},"tags":["AP"],"password":false,"permissions":{"release":1,"collect":6,"remaining":2},"hint_cost":10,"location_check_points":1,"games":["La-Mulana"],"datapackage_checksums":{"La-Mulana":"abc"},"seed_name":"seed","time":1712345678.25}]"#.to_vec()
}

fn admission() -> Vec<u8> {
    br#"[{"cmd":"Connected","team":0,"slot":1,"players":[{"team":0,"slot":1,"alias":"Lemeza","name":"Lemeza"}],"missing_locations":[7,8],"checked_locations":[],"slot_data":null,"slot_info":{"1":{"name":"Lemeza","game":"La-Mulana","type":1,"group_members":[]}},"hint_points":0}]"#.to_vec()
}

#[test]
fn the_loop_connects_within_three_attempts_and_reports_again() {
    let mut app = game(4096);
    app.global_flags[0x863] = 2;
    let mut engine = SyncEngine::new(config(), items()).unwrap();
    let mut attempts = 0;

    // the first two attempts fail, the third goes through
    for outcome in [Transport::TcpFailed, Transport::WebsocketFailed, Transport::Opened] {
        let report = game_loop(&mut engine, &mut app);
        let dial = report.reconnect.expect("a disconnected engine dials");
        attempts += 1;
        assert!(dial.secure);
        assert_eq!(dial.address, "archipelago.gg:38281");
        assert_eq!(dial.domain, "archipelago.gg");
        assert_eq!(dial.websocket_url, "wss://archipelago.gg:38281");
        assert!(report.send.is_none());
        // a tick during the attempt waits
        let waiting = game_loop(&mut engine, &mut app);
        assert!(waiting.reconnect.is_none());
        let next = engine.client.transport(outcome);
        match outcome {
            Transport::TcpFailed => assert_eq!(next.unwrap_err(), APError::ServerConnectionFailure),
            Transport::WebsocketFailed => {
                assert_eq!(next.unwrap_err(), APError::WebsocketConnectionFailure)
            }
            _ => assert!(next.unwrap().is_none()),
        }
    }
    assert_eq!(attempts, 3);
    assert_eq!(engine.client.state, ConnectionState::Connecting(Handshake::Greeting));

    let update = get_updates_from_server(&mut engine, Frame::Text(room_info()));
    assert_eq!(update.fault, None);
    match update.reply {
        Reply::Text(text) => assert_eq!(
            text,
            r#"[{"cmd":"Connect","password":"","game":"La-Mulana","name":"Lemeza","uuid":1,"version":{"class":"Version","build":0,"major":6,"minor":4},"items_handling":1,"tags":[],"slot_data":false}]"#
        ),
        other => panic!("the greeting is answered with the credentials, not {:?}", other),
    }
    assert_eq!(engine.client.state, ConnectionState::Connecting(Handshake::Admission));

    let update = get_updates_from_server(&mut engine, Frame::Text(admission()));
    assert_eq!(update.fault, None);
    match update.reply {
        Reply::Text(text) => assert_eq!(text, r#"[{"cmd":"Sync"}]"#),
        other => panic!("the admission is answered with a sync, not {:?}", other),
    }
    assert_eq!(engine.client.state, ConnectionState::Connected(Session { team: 0, slot: 1 }));

    let report = game_loop(&mut engine, &mut app);
    assert_eq!(report.send.as_deref(), Some(r#"[{"cmd":"LocationChecks","locations":[7]}]"#));
}

#[test]
fn an_item_waits_while_a_grant_is_in_flight() {
    let mut app = game(4096);
    let mut engine = connected();
    engine.queue.in_flight = Some(PlayerItem { player_id: 1, for_player: false });

    let frame = br#"[{"cmd":"ReceivedItems","index":0,"items":[{"item":42,"location":11,"player":3,"flags":0}]}]"#;
    let update = get_updates_from_server(&mut engine, Frame::Text(frame.to_vec()));
    assert_eq!(update.fault, None);
    assert_eq!(engine.inbox.len(), 1);

    let report = game_loop(&mut engine, &mut app);
    assert_eq!(report.delivered, None);
    assert_eq!(engine.queue.pending.len(), 1);
    assert_eq!(engine.queue.pending[0].item, NetworkItem { item: 42, location: 11, player: 3, flags: 0 });
    assert_eq!(grants(&app), 0);

    // still in flight: nothing is granted however often the loop runs
    for _ in 0..3 {
        let report = game_loop(&mut engine, &mut app);
        assert_eq!(report.delivered, None);
    }
    assert_eq!(engine.queue.pending.len(), 1);

    engine.queue.clear_in_flight();
    let report = game_loop(&mut engine, &mut app);
    assert_eq!(report.delivered, Some(GivenItem { player_id: 3, item_id: 105 }));
    assert!(engine.queue.pending.is_empty());
    assert_eq!(engine.queue.in_flight, Some(PlayerItem { player_id: 3, for_player: false }));
    assert_eq!(grants(&app), 1);
    assert_eq!(app.global_flags[0x90], 2);
}

#[test]
fn a_delivery_puts_up_the_name_of_the_sender() {
    let mut app = game(4096);
    app.liveness.insert(0x40, 5);
    let mut engine = connected();
    engine.popup_id_address = 0x40;
    engine.inbox.push(ServerPayload::ReceivedItems(ReceivedItems {
        index: 0,
        items: vec![NetworkItem { item: 42, location: 11, player: 3, flags: 0 }],
    }));

    let report = game_loop(&mut engine, &mut app);
    assert!(report.delivered.is_some());
    assert!(!report.expired);
    let mut words = encode("  From Mulbruk!".to_string());
    words.push(0x000a);
    assert_eq!(app.line.script, words);
    assert_eq!(app.line.font_num, 12);
    let token = engine.overlay.popup.as_ref().unwrap();
    assert_eq!(token.popup_id, 5);
    assert_eq!(token.popup_id_address, 0x40);
    assert_eq!(token.old_line.script, vec![0x100, 0x000a]);

    // the game takes the display back: the line returns, the grant is over
    app.liveness.insert(0x40, 6);
    let report = game_loop(&mut engine, &mut app);
    assert!(report.expired);
    assert!(engine.overlay.popup.is_none());
    assert_eq!(engine.queue.in_flight, None);
    assert_eq!(app.line.script, vec![0x100, 0x000a]);
    assert_eq!(app.line.font_num, 1);

    let report = game_loop(&mut engine, &mut app);
    assert!(!report.expired);
}

#[test]
fn an_item_of_an_unknown_kind_is_given_up() {
    let mut app = game(4096);
    let mut engine = connected();
    engine.inbox.push(ServerPayload::ReceivedItems(ReceivedItems {
        index: 0,
        items: vec![
            NetworkItem { item: 99, location: 1, player: 3, flags: 0 },
            NetworkItem { item: -5, location: 2, player: 3, flags: 0 },
            NetworkItem { item: 42, location: 3, player: 1, flags: 0 },
            NetworkItem { item: 42, location: 4, player: 3, flags: 0 },
        ],
    }));
    engine.queue.in_flight = Some(PlayerItem { player_id: 9, for_player: false });
    let report = game_loop(&mut engine, &mut app);
    assert_eq!(
        report.dropped,
        vec![
            NetworkItem { item: 99, location: 1, player: 3, flags: 0 },
            NetworkItem { item: -5, location: 2, player: 3, flags: 0 },
        ]
    );
    // the item of the local player is not taken in, the last one is
    assert_eq!(engine.queue.pending.len(), 1);
    assert_eq!(engine.queue.pending[0].item.location, 4);
}

#[test]
fn an_item_for_another_player_opens_the_dialog() {
    let mut app = game(4096);
    app.se = 0x100;
    let mut engine = connected();

    assert!(!item_symbol_back_intercept(&mut engine, &mut app, 12, 1));
    assert!(item_symbol_back_intercept(&mut engine, &mut app, 83, 0));
    assert_eq!(engine.queue.in_flight, None);
    assert!(app.calls.is_empty());

    assert!(item_symbol_back_intercept(&mut engine, &mut app, 83, 1));
    assert_eq!(engine.queue.in_flight, Some(PlayerItem { player_id: 0, for_player: true }));
    assert_eq!(app.options, vec![83]);
    assert_eq!(
        app.calls,
        vec![
            HostCall::SetViewEventNs { priority: 16, routine: Routine::PopupDialogInit },
            HostCall::SetSe { sound: 0x718, volume: 0x27, balance: 0xf, pitch: 0x3f499326, delay: 0, fade: 0x3f000000 },
        ]
    );
    assert_eq!(app.game_process, 2);
    assert_eq!(app.movement_status, 1);
    assert_eq!(app.warp_menu_status, 0x100000);
    assert_eq!(app.lemeza_pose, 0xf);

    app.liveness.insert(0x80, 3);
    assert!(popup_dialog_draw_intercept(&mut engine, &mut app, 0x80));
    let mut words = encode("  For Another Player!".to_string());
    words.push(0x000a);
    assert_eq!(app.line.script, words);
    assert_eq!(engine.overlay.popup.as_ref().unwrap().popup_id, 3);
    // drawn again: the token lives, nothing changes
    assert!(!popup_dialog_draw_intercept(&mut engine, &mut app, 0x80));

    app.liveness.insert(0x80, 4);
    assert!(display_item_if_available(&mut engine, &mut app));
    assert_eq!(engine.queue.in_flight, None);
    assert!(!display_item_if_available(&mut engine, &mut app));
}

#[test]
fn an_engine_needs_the_name_of_the_local_player() {
    let mut nameless = config();
    nameless.local_player_id = 2;
    assert!(SyncEngine::new(nameless, items()).is_none());

    let mut engine = SyncEngine::new(config(), items()).unwrap();
    assert_eq!(engine.client.credentials.name, "Lemeza");
    assert_eq!(engine.client.credentials.game, "La-Mulana");
    assert_eq!(engine.client.credentials.uuid, 1);
    let dial = reconnect_to_server(&mut engine);
    assert_eq!(dial.websocket_url, "wss://archipelago.gg:38281");
    assert_eq!(engine.client.state, ConnectionState::Connecting(Handshake::Secure));
}
