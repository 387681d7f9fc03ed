use lamulana_mw::application::overlay::{NotificationOverlay, PlayerItemPopup};
use lamulana_mw::application::{Application, MessageLine, RoomKey};
use lamulana_mw::lm_structs::script_header::ScriptSubHeader;
use std::collections::HashMap;

fn stage() -> Application {
    Application {
        game_init: 1,
        global_flags: vec![0u8; 4096],
        inventory: vec![0u16; 114],
        room: RoomKey { field: 0, screen: 0, scene: 0 },
        liveness: HashMap::new(),
        line: MessageLine { script: vec![0x116, 0x117, 0x000a], font_num: 2 },
        options: Vec::new(),
        option_pos_cx: 0,
        option_pos_cy: 0,
        game_process: 0,
        movement_status: 0,
        warp_menu_status: 0,
        lemeza_pose: 0,
        se: 0,
        calls: Vec::new(),
    }
}

#[test]
fn the_popup_expires_once_the_counter_moves() {
    let mut app = stage();
    app.liveness.insert(0x1234, 5);
    let mut overlay = NotificationOverlay {
        popup: Some(PlayerItemPopup {
            popup_id_address: 0x1234,
            popup_id: 5,
            encoded: vec![0x129, 0x000a],
            old_line: MessageLine { script: vec![0x116, 0x117, 0x000a], font_num: 2 },
        }),
    };
    app.line = MessageLine { script: vec![0x129, 0x000a], font_num: 1 };

    assert!(!overlay.tick(&mut app));
    assert!(overlay.popup.is_some());
    assert_eq!(app.line.script, vec![0x129, 0x000a]);

    app.liveness.insert(0x1234, 6);
    assert!(overlay.tick(&mut app));
    assert!(overlay.popup.is_none());
    assert_eq!(app.line.script, vec![0x116, 0x117, 0x000a]);
    assert_eq!(app.line.font_num, 2);

    // the game writes its own line; a later tick leaves it alone
    app.line = MessageLine { script: vec![0x130], font_num: 1 };
    assert!(!overlay.tick(&mut app));
    assert_eq!(app.line.script, vec![0x130]);
    assert_eq!(app.line.font_num, 1);
}

#[test]
fn show_takes_the_counter_and_the_line() {
    let mut app = stage();
    app.liveness.insert(7, 41);
    let mut overlay = NotificationOverlay::new();
    assert!(overlay.popup.is_none());
    overlay.show(&mut app, "  A?".to_string(), 7);

    let token = overlay.popup.as_ref().unwrap();
    assert_eq!(token.popup_id_address, 7);
    assert_eq!(token.popup_id, 41);
    assert_eq!(token.encoded, vec![0x20, 0x20, 0x116, 0x115, 0x000a]);
    assert_eq!(token.old_line.script, vec![0x116, 0x117, 0x000a]);
    assert_eq!(token.old_line.font_num, 2);
    assert_eq!(app.line.script, vec![0x20, 0x20, 0x116, 0x115, 0x000a]);
    assert_eq!(app.line.font_num, 2);
}

#[test]
fn a_counter_that_is_not_there_reads_as_zero() {
    let mut app = stage();
    let mut overlay = NotificationOverlay::new();
    overlay.show(&mut app, "A".to_string(), 99);
    assert_eq!(overlay.popup.as_ref().unwrap().popup_id, 0);
    assert!(!overlay.tick(&mut app));
    app.liveness.insert(99, 1);
    assert!(overlay.tick(&mut app));
}

#[test]
fn a_second_show_keeps_the_line_of_the_game() {
    let mut app = stage();
    let mut overlay = NotificationOverlay::new();
    overlay.show(&mut app, "A".to_string(), 1);
    overlay.show(&mut app, "T".to_string(), 1);
    assert_eq!(app.line.script, vec![0x129, 0x000a]);
    assert_eq!(overlay.popup.as_ref().unwrap().old_line.script, vec![0x116, 0x117, 0x000a]);
    app.liveness.insert(1, 9);
    assert!(overlay.tick(&mut app));
    assert_eq!(app.line.script, vec![0x116, 0x117, 0x000a]);
}

#[test]
fn a_line_gives_its_header() {
    let line = MessageLine { script: vec![0x20, 0x20, 0x116, 0x115, 0x000a], font_num: 2 };
    assert_eq!(
        line.header(0x5000),
        Some(ScriptSubHeader { pointer: 0x5000, data_num: 5, font_num: 2 })
    );
    let copy = line.copy();
    assert_eq!(copy.script, line.script);
    assert_eq!(copy.font_num, 2);
    let broken = MessageLine { script: vec![], font_num: usize::MAX };
    assert_eq!(broken.header(0), None);
}
