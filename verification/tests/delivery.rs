use lamulana_mw::application::delivery::{DeliveryQueue, GivenItem, PlayerItem};
use lamulana_mw::application::{Application, HostCall, MessageLine, RoomKey, Routine};
use lamulana_mw::archipelago::api::NetworkItem;
use lamulana_mw::lm_structs::items::{Guard, Item};
use std::collections::HashMap;

fn kinds() -> HashMap<u64, Item> {
    let mut kinds = HashMap::new();
    kinds.insert(10, Item { item_id: 3, item_name: "Knife".to_string(), flag: 0x7f, value: 1, guard: Guard::OwnedOnceInventory });
    kinds.insert(20, Item { item_id: 19, item_name: "Ankh Jewel".to_string(), flag: 0x852, value: 2, guard: Guard::OwnedOnceFlag });
    kinds.insert(30, Item { item_id: 107, item_name: "Coin".to_string(), flag: 0x90, value: 2, guard: Guard::Consumable });
    kinds.insert(40, Item { item_id: usize::MAX, item_name: "Nothing".to_string(), flag: 0, value: 0, guard: Guard::Consumable });
    kinds
}

fn world() -> Application {
    Application {
        game_init: 1,
        global_flags: vec![0u8; 4096],
        inventory: vec![0u16; 114],
        room: RoomKey { field: 0, screen: 0, scene: 0 },
        liveness: HashMap::new(),
        line: MessageLine { script: vec![], font_num: 0 },
        options: Vec::new(),
        option_pos_cx: 0,
        option_pos_cy: 0,
        game_process: 0,
        movement_status: 0,
        warp_menu_status: 0,
        lemeza_pose: 0,
        se: 0,
        calls: Vec::new(),
    }
}

fn remote(item: i64, location: i64, player: i64) -> NetworkItem {
    NetworkItem { item, location, player, flags: 0 }
}

fn waiting(queue: &DeliveryQueue) -> Vec<i64> {
    let mut locations: Vec<i64> = queue.pending.iter().map(|p| p.item.location).collect();
    locations.sort();
    locations
}

#[test]
fn enqueue_takes_what_the_table_describes() {
    let mut queue = DeliveryQueue::new(kinds());
    assert!(queue.enqueue(remote(10, 1, 2)));
    assert!(!queue.enqueue(remote(11, 2, 2)));
    assert!(!queue.enqueue(remote(-10, 3, 2)));
    assert_eq!(queue.enqueue(remote(40, 4, 2)), usize::MAX <= u32::MAX as usize);
    assert!(queue.enqueue(remote(20, 5, 2)));
    assert_eq!(queue.pending.len(), 2);
    assert_eq!(queue.pending[0].item, remote(10, 1, 2));
    assert_eq!(queue.pending[0].item_id, 3);
    assert_eq!(queue.pending[0].flag, 0x7f);
    assert_eq!(queue.pending[0].value, 1);
    assert_eq!(queue.pending[0].guard, Guard::OwnedOnceInventory);
    assert!(queue.pending[0].rooms_seen.is_empty());
    assert_eq!(queue.pending[1].item, remote(20, 5, 2));
    assert_eq!(queue.in_flight, None);
}

#[test]
fn the_item_received_last_is_granted_first() {
    let mut app = world();
    let mut queue = DeliveryQueue::new(kinds());
    queue.enqueue(remote(10, 1, 2));
    queue.enqueue(remote(30, 2, 5));

    let given = queue.try_deliver_next(&mut app);
    assert_eq!(given, Some(GivenItem { player_id: 5, item_id: 107 }));
    assert_eq!(queue.in_flight, Some(PlayerItem { player_id: 5, for_player: false }));
    assert_eq!(waiting(&queue), vec![1]);
    assert_eq!(app.options, vec![107, 160, 120, 39]);
    assert_eq!(app.calls, vec![HostCall::SetViewEventNs { priority: 16, routine: Routine::ItemGetAreaInit }]);
    assert_eq!(app.global_flags[0x90], 2);
    assert_eq!(app.option_pos_cx, 0);
    assert_eq!(app.option_pos_cy, 0);
}

#[test]
fn no_second_grant_while_one_is_in_flight() {
    let mut app = world();
    let mut queue = DeliveryQueue::new(kinds());
    queue.enqueue(remote(30, 1, 2));
    queue.enqueue(remote(30, 2, 2));
    queue.enqueue(remote(30, 3, 2));

    let mut granted = 0;
    for step in 0..10u8 {
        app.room = RoomKey { field: step, screen: 0, scene: 0 };
        if queue.try_deliver_next(&mut app).is_some() {
            granted += 1;
        }
    }
    assert_eq!(granted, 1);
    assert_eq!(waiting(&queue), vec![1, 2]);

    queue.clear_in_flight();
    assert!(queue.try_deliver_next(&mut app).is_some());
    assert!(queue.try_deliver_next(&mut app).is_none());
    assert_eq!(waiting(&queue), vec![1]);
}

#[test]
fn an_item_that_is_owned_stays_in_the_queue() {
    let mut app = world();
    app.inventory[3] = 1;
    let mut queue = DeliveryQueue::new(kinds());
    queue.enqueue(remote(10, 1, 2));

    assert_eq!(queue.try_deliver_next(&mut app), None);
    assert_eq!(waiting(&queue), vec![1]);
    assert_eq!(queue.pending[0].rooms_seen, vec![RoomKey { field: 0, screen: 0, scene: 0 }]);
    assert!(app.calls.is_empty());
    assert_eq!(queue.in_flight, None);

    // the slot is free now, but the room is the same: not tried again
    app.inventory[3] = 0;
    assert_eq!(queue.try_deliver_next(&mut app), None);
    assert_eq!(waiting(&queue), vec![1]);
    assert_eq!(queue.pending[0].rooms_seen.len(), 1);

    // in the next room the grant goes through
    app.room = RoomKey { field: 0, screen: 1, scene: 0 };
    assert_eq!(queue.try_deliver_next(&mut app), Some(GivenItem { player_id: 2, item_id: 3 }));
    assert!(queue.pending.is_empty());
    assert_eq!(app.global_flags[0x7f], 1);
}

#[test]
fn an_item_with_a_set_flag_waits_for_the_flag() {
    let mut app = world();
    app.global_flags[0x852] = 2;
    let mut queue = DeliveryQueue::new(kinds());
    queue.enqueue(remote(20, 1, 2));
    assert_eq!(queue.try_deliver_next(&mut app), None);
    assert_eq!(waiting(&queue), vec![1]);
    app.global_flags[0x852] = 0;
    app.room = RoomKey { field: 3, screen: 1, scene: 0 };
    assert_eq!(queue.try_deliver_next(&mut app), Some(GivenItem { player_id: 2, item_id: 19 }));
    assert_eq!(app.global_flags[0x852], 2);
}

#[test]
fn a_blocked_item_lets_the_others_pass() {
    let mut app = world();
    app.inventory[3] = 1;
    let mut queue = DeliveryQueue::new(kinds());
    queue.enqueue(remote(30, 1, 2));
    queue.enqueue(remote(10, 2, 2));

    assert_eq!(queue.try_deliver_next(&mut app), None);
    assert_eq!(queue.pending[0].item.location, 2);
    assert_eq!(queue.pending[1].item.location, 1);
    assert_eq!(queue.try_deliver_next(&mut app), Some(GivenItem { player_id: 2, item_id: 107 }));
    assert_eq!(waiting(&queue), vec![2]);
}

#[test]
fn nothing_is_tried_while_the_game_is_not_running() {
    let mut app = world();
    app.game_init = 0;
    let mut queue = DeliveryQueue::new(kinds());
    queue.enqueue(remote(30, 1, 2));
    assert_eq!(queue.try_deliver_next(&mut app), None);
    assert_eq!(waiting(&queue), vec![1]);
    assert!(queue.pending[0].rooms_seen.is_empty());
    let mut empty = DeliveryQueue::new(kinds());
    app.game_init = 1;
    assert_eq!(empty.try_deliver_next(&mut app), None);
}

#[test]
fn the_rule_of_a_kind_without_one_goes_by_its_number() {
    assert_eq!(Guard::by_item_id(19), Guard::OwnedOnceFlag);
    assert_eq!(Guard::by_item_id(69), Guard::OwnedOnceFlag);
    assert_eq!(Guard::by_item_id(70), Guard::OwnedOnceFlag);
    assert_eq!(Guard::by_item_id(104), Guard::OwnedOnceInventory);
    assert_eq!(Guard::by_item_id(105), Guard::Consumable);
    assert_eq!(Guard::by_item_id(0), Guard::OwnedOnceInventory);
}
