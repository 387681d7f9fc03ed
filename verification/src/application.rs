use crate::lm_structs::script_header::ScriptSubHeader;
use std::collections::HashMap;
use vstd::prelude::*;

pub mod delivery;
pub mod detector;
pub mod entrypoints;
pub mod overlay;

verus! {

/// Offsets of the game's routines and variables, relative to its image base.
#[derive(Debug, Clone, Copy, PartialEq, Eq, Structural)]
pub struct AppAddresses {
    pub popup_dialog_draw: usize,
    pub game_init: usize,
    pub lemeza_pointer: usize,
    pub game_process: usize,
    pub option_sdata_num: usize,
    pub option_sdata: usize,
    pub option_pos_cx: usize,
    pub option_pos_cy: usize,
    pub set_view_event_ns: usize,
    pub set_se: usize,
    pub se: usize,
    pub item_get_area_init: usize,
    pub popup_dialog_init: usize,
    pub script_header_pointer: usize,
    pub item_symbol_init: usize,
    pub item_symbol_back: usize,
    pub global_flags: usize,
    pub inventory_words: usize,
    pub current_field: usize,
    pub current_screen: usize,
    pub current_scene: usize,
    pub system_flags: usize,
    pub game_loop: usize,
}

impl AppAddresses {
    /// The offsets of the build of the game that `version` names.
    pub open spec fn of_version(version: Seq<char>) -> Option<AppAddresses> {
        if version == "1.0.0.1"@ {
            Some(
                AppAddresses {
                    set_se: 0x00417600,
                    item_get_area_init: 0x004b8950,
                    item_symbol_init: 0x004b8ae0,
                    item_symbol_back: 0x004b8e70,
                    set_view_event_ns: 0x00507160,
                    popup_dialog_init: 0x00591520,
                    popup_dialog_draw: 0x005917b0,
                    game_loop: 0x00607b70,
                    se: 0x006d2708,
                    script_header_pointer: 0x006d296c,
                    inventory_words: 0x006d5650,
                    system_flags: 0x006d59c0,
                    global_flags: 0x006d5a70,
                    current_scene: 0x00db4bb3,
                    current_screen: 0x00db4bb6,
                    current_field: 0x00db4bb7,
                    option_sdata_num: 0x00db6fb7,
                    option_sdata: 0x00db7048,
                    option_pos_cx: 0x00db714c,
                    option_pos_cy: 0x00db7168,
                    game_process: 0x00db7178,
                    lemeza_pointer: 0x00db7538,
                    game_init: 0x00db753c,
                },
            )
        } else if version == "1.6.6.2"@ {
            Some(
                AppAddresses {
                    set_se: 0x004186c0,
                    item_get_area_init: 0x004ba720,
                    item_symbol_init: 0x004ba8b0,
                    item_symbol_back: 0x004bac40,
                    set_view_event_ns: 0x00509530,
                    popup_dialog_init: 0x00593670,
                    popup_dialog_draw: 0x00593900,
                    game_loop: 0x00609fb0,
                    se: 0x006de844,
                    script_header_pointer: 0x006deb2c,
                    inventory_words: 0x006e1820,
                    system_flags: 0x006e1b90,
                    global_flags: 0x006e1e48,
                    current_scene: 0x00dc0ebe,
                    current_screen: 0x00dc0ebf,
                    current_field: 0x00dc0ee6,
                    option_sdata_num: 0x00dc32c2,
                    option_sdata: 0x00dc3350,
                    option_pos_cx: 0x00dc3454,
                    option_pos_cy: 0x00dc3470,
                    game_process: 0x00dc3480,
                    lemeza_pointer: 0x00dc3844,
                    game_init: 0x00dc3848,
                },
            )
        } else {
            None
        }
    }

    /// Looks up the offsets of the build of the game that `version` names.
    /// A build that is not listed has none.
    pub fn lookup(version: &str) -> (addresses: Option<AppAddresses>)
        ensures
            addresses == AppAddresses::of_version(version@),
    {
        let wanted = String::from_str(version);
        if wanted == String::from_str("1.0.0.1") {
            Some(
                AppAddresses {
                    set_se: 0x00417600,
                    item_get_area_init: 0x004b8950,
                    item_symbol_init: 0x004b8ae0,
                    item_symbol_back: 0x004b8e70,
                    set_view_event_ns: 0x00507160,
                    popup_dialog_init: 0x00591520,
                    popup_dialog_draw: 0x005917b0,
                    game_loop: 0x00607b70,
                    se: 0x006d2708,
                    script_header_pointer: 0x006d296c,
                    inventory_words: 0x006d5650,
                    system_flags: 0x006d59c0,
                    global_flags: 0x006d5a70,
                    current_scene: 0x00db4bb3,
                    current_screen: 0x00db4bb6,
                    current_field: 0x00db4bb7,
                    option_sdata_num: 0x00db6fb7,
                    option_sdata: 0x00db7048,
                    option_pos_cx: 0x00db714c,
                    option_pos_cy: 0x00db7168,
                    game_process: 0x00db7178,
                    lemeza_pointer: 0x00db7538,
                    game_init: 0x00db753c,
                },
            )
        } else if wanted == String::from_str("1.6.6.2") {
            Some(
                AppAddresses {
                    set_se: 0x004186c0,
                    item_get_area_init: 0x004ba720,
                    item_symbol_init: 0x004ba8b0,
                    item_symbol_back: 0x004bac40,
                    set_view_event_ns: 0x00509530,
                    popup_dialog_init: 0x00593670,
                    popup_dialog_draw: 0x00593900,
                    game_loop: 0x00609fb0,
                    se: 0x006de844,
                    script_header_pointer: 0x006deb2c,
                    inventory_words: 0x006e1820,
                    system_flags: 0x006e1b90,
                    global_flags: 0x006e1e48,
                    current_scene: 0x00dc0ebe,
                    current_screen: 0x00dc0ebf,
                    current_field: 0x00dc0ee6,
                    option_sdata_num: 0x00dc32c2,
                    option_sdata: 0x00dc3350,
                    option_pos_cx: 0x00dc3454,
                    option_pos_cy: 0x00dc3470,
                    game_process: 0x00dc3480,
                    lemeza_pointer: 0x00dc3844,
                    game_init: 0x00dc3848,
                },
            )
        } else {
            None
        }
    }
}

/// Where the player stands: field, screen and scene numbers.
#[derive(Debug, Clone, Copy, PartialEq, Eq, Structural)]
pub struct RoomKey {
    pub field: u8,
    pub screen: u8,
    pub scene: u8,
}

/// The content of the game's message slot: the words of one script line and
/// the number of glyphs among them.
#[derive(Debug, Clone)]
pub struct MessageLine {
    pub script: Vec<u16>,
    pub font_num: usize,
}

/// A routine of the game that a view event can start.
#[derive(Debug, Clone, Copy, PartialEq, Eq, Structural)]
pub enum Routine {
    ItemGetAreaInit,
    PopupDialogInit,
}

/// A call into the game that the state image cannot express by itself. The
/// adapter performs the recorded calls in order once a tick has returned.
#[derive(Debug, Clone, Copy, PartialEq, Eq, Structural)]
pub enum HostCall {
    SetViewEventNs { priority: u16, routine: Routine },
    SetSe { sound: u32, volume: u32, balance: u32, pitch: u32, delay: u32, fade: u32 },
}

/// Most options that the game's option stack holds.
pub const OPTION_STACK_LIMIT: usize = 32;

/// The image of the game's state that the synchronization engine works on.
///
/// An adapter fills it from the game's memory before a tick and carries the
/// changes back afterwards; the engine itself only ever touches this image.
pub struct Application {
    pub game_init: u32,
    pub global_flags: Vec<u8>,
    pub inventory: Vec<u16>,
    pub room: RoomKey,
    pub liveness: HashMap<usize, u32>,
    pub line: MessageLine,
    pub options: Vec<u32>,
    pub option_pos_cx: u32,
    pub option_pos_cy: u32,
    pub game_process: u32,
    pub movement_status: u32,
    pub warp_menu_status: u32,
    pub lemeza_pose: i32,
    pub se: u32,
    pub calls: Vec<HostCall>,
}

/// The message slot as a value.
pub struct LineView {
    pub script: Seq<u16>,
    pub font_num: usize,
}

impl View for MessageLine {
    type V = LineView;

    open spec fn view(&self) -> LineView {
        LineView { script: self.script@, font_num: self.font_num }
    }
}

impl LineView {
    /// The header that describes the line to the game, where the numbers
    /// of its words and glyphs fit the header.
    pub open spec fn header(self, pointer: usize) -> Option<ScriptSubHeader> {
        if self.script.len() <= i32::MAX && self.font_num <= i32::MAX {
            Some(
                ScriptSubHeader {
                    pointer,
                    data_num: self.script.len() as i32,
                    font_num: self.font_num as i32,
                },
            )
        } else {
            None
        }
    }
}

impl MessageLine {
    /// The header that describes the line to the game once its words lie
    /// at `pointer`.
    pub fn header(&self, pointer: usize) -> (header: Option<ScriptSubHeader>)
        ensures
            header == self@.header(pointer),
    {
        if self.script.len() <= i32::MAX as usize && self.font_num <= i32::MAX as usize {
            Some(
                ScriptSubHeader {
                    pointer,
                    data_num: self.script.len() as i32,
                    font_num: self.font_num as i32,
                },
            )
        } else {
            None
        }
    }

    /// A copy of the line.
    pub fn copy(&self) -> (line: MessageLine)
        ensures
            line@ == self@,
    {
        MessageLine { script: self.script.clone(), font_num: self.font_num }
    }
}

/// The state image as a value.
pub struct ApplicationView {
    pub game_init: u32,
    pub global_flags: Seq<u8>,
    pub inventory: Seq<u16>,
    pub room: RoomKey,
    pub liveness: Map<usize, u32>,
    pub line: LineView,
    pub options: Seq<u32>,
    pub option_pos_cx: u32,
    pub option_pos_cy: u32,
    pub game_process: u32,
    pub movement_status: u32,
    pub warp_menu_status: u32,
    pub lemeza_pose: i32,
    pub se: u32,
    pub calls: Seq<HostCall>,
}

impl View for Application {
    type V = ApplicationView;

    open spec fn view(&self) -> ApplicationView {
        ApplicationView {
            game_init: self.game_init,
            global_flags: self.global_flags@,
            inventory: self.inventory@,
            room: self.room,
            liveness: self.liveness@,
            line: self.line@,
            options: self.options@,
            option_pos_cx: self.option_pos_cx,
            option_pos_cy: self.option_pos_cy,
            game_process: self.game_process,
            movement_status: self.movement_status,
            warp_menu_status: self.warp_menu_status,
            lemeza_pose: self.lemeza_pose,
            se: self.se,
            calls: self.calls@,
        }
    }
}

impl ApplicationView {
    /// The flag byte at `offset`; a byte outside the image reads as zero.
    pub open spec fn flag_at(self, offset: int) -> u8 {
        if 0 <= offset < self.global_flags.len() {
            self.global_flags[offset]
        } else {
            0
        }
    }

    /// The inventory word at `index`; a word outside the image reads as zero.
    pub open spec fn inventory_at(self, index: int) -> u16 {
        if 0 <= index < self.inventory.len() {
            self.inventory[index]
        } else {
            0
        }
    }

    /// The liveness counter stored under `address_key`; an unknown key reads
    /// as zero.
    pub open spec fn liveness_at(self, address_key: usize) -> u32 {
        if self.liveness.contains_key(address_key) {
            self.liveness[address_key]
        } else {
            0
        }
    }

    /// The image with `value` stored at `offset`; a write outside the image
    /// changes nothing.
    pub open spec fn with_flag(self, offset: int, value: u8) -> ApplicationView {
        if 0 <= offset < self.global_flags.len() {
            ApplicationView { global_flags: self.global_flags.update(offset, value), ..self }
        } else {
            self
        }
    }

    /// The image with one more option on the stack; a full stack drops it.
    pub open spec fn with_option(self, option_num: u32) -> ApplicationView {
        if self.options.len() < OPTION_STACK_LIMIT {
            ApplicationView { options: self.options.push(option_num), ..self }
        } else {
            self
        }
    }

    /// The image with one more call recorded.
    pub open spec fn with_call(self, call: HostCall) -> ApplicationView {
        ApplicationView { calls: self.calls.push(call), ..self }
    }

    /// The image once sound `effect_id` has been asked for.
    pub open spec fn with_sound(self, effect_id: u32) -> ApplicationView {
        self.with_call(
            HostCall::SetSe {
                sound: self.se.wrapping_add(effect_id),
                volume: 0x27,
                balance: 0xf,
                pitch: 0x3f499326,
                delay: 0,
                fade: 0x3f000000,
            },
        )
    }

    /// The image once the item-get sequence has been started for `item`.
    pub open spec fn with_item_given(self, item: u32) -> ApplicationView {
        (ApplicationView { option_pos_cx: 0, option_pos_cy: 0, ..self }).with_option(
            item,
        ).with_option(160).with_option(120).with_option(39).with_call(
            HostCall::SetViewEventNs { priority: 16, routine: Routine::ItemGetAreaInit },
        )
    }

    /// The image once the item dialog has been opened for `item_id`.
    pub open spec fn with_dialog_popup(self, item_id: u32) -> ApplicationView {
        let opened = self.with_option(item_id).with_call(
            HostCall::SetViewEventNs { priority: 16, routine: Routine::PopupDialogInit },
        );
        (ApplicationView {
            game_process: opened.game_process | 2,
            lemeza_pose: 0xf,
            warp_menu_status: opened.warp_menu_status | 0x100000,
            movement_status: opened.movement_status | 1,
            ..opened
        }).with_sound(0x618)
    }
}

impl Application {
    /// The flag byte at `offset`; a byte outside the image reads as zero.
    pub fn read_flag_byte(&self, offset: usize) -> (value: u8)
        ensures
            value == self@.flag_at(offset as int),
    {
        if offset < self.global_flags.len() {
            self.global_flags[offset]
        } else {
            0
        }
    }

    /// Stores `value` in the flag byte at `offset`; a write outside the image
    /// changes nothing.
    pub fn write_flag_byte(&mut self, offset: usize, value: u8)
        ensures
            final(self)@ == old(self)@.with_flag(offset as int, value),
    {
        if offset < self.global_flags.len() {
            self.global_flags.set(offset, value);
        }
    }

    /// The inventory word at `index`; a word outside the image reads as zero.
    pub fn read_inventory_slot(&self, index: usize) -> (value: u16)
        ensures
            value == self@.inventory_at(index as int),
    {
        if index < self.inventory.len() {
            self.inventory[index]
        } else {
            0
        }
    }

    /// Where the player stands.
    pub fn current_room(&self) -> (room: RoomKey)
        ensures
            room == self@.room,
    {
        self.room
    }

    /// The counter stored under `address_key`; an unknown key reads as zero.
    pub fn liveness_counter(&self, address_key: usize) -> (value: u32)
        ensures
            value == self@.liveness_at(address_key),
    {
        match self.liveness.get(&address_key) {
            Some(value) => *value,
            None => 0,
        }
    }

    /// Pushes one option for the next view event. A full stack drops it.
    pub fn option_stuck(&mut self, option_num: u32)
        ensures
            final(self)@ == old(self)@.with_option(option_num),
    {
        if self.options.len() < OPTION_STACK_LIMIT {
            self.options.push(option_num);
        }
    }

    /// Sets the position words of the next view event, as raw bit patterns.
    pub fn option_pos(&mut self, x: u32, y: u32)
        ensures
            final(self)@ == (ApplicationView { option_pos_cx: x, option_pos_cy: y, ..old(self)@ }),
    {
        self.option_pos_cx = x;
        self.option_pos_cy = y;
    }

    /// Starts the game's item-get sequence for `item`: resets the position,
    /// pushes the item and the three fixed options of the sequence, and asks
    /// for the view event that plays it.
    pub fn give_item(&mut self, item: u32)
        ensures
            final(self)@ == old(self)@.with_item_given(item),
    {
        self.option_pos(0, 0);
        self.option_stuck(item);
        self.option_stuck(160);
        self.option_stuck(120);
        self.option_stuck(39);
        self.calls.push(HostCall::SetViewEventNs { priority: 16, routine: Routine::ItemGetAreaInit });
    }

    /// Halts the game's own processing while a dialog shows.
    pub fn pause_game_process(&mut self)
        ensures
            final(self)@ == (ApplicationView {
                game_process: old(self)@.game_process | 2,
                ..old(self)@
            }),
    {
        self.game_process = self.game_process | 2;
    }

    /// Keeps the player from moving.
    pub fn disable_movement(&mut self)
        ensures
            final(self)@ == (ApplicationView {
                movement_status: old(self)@.movement_status | 1,
                ..old(self)@
            }),
    {
        self.movement_status = self.movement_status | 1;
    }

    /// Keeps the warp menu closed.
    pub fn disable_warp_menu(&mut self)
        ensures
            final(self)@ == (ApplicationView {
                warp_menu_status: old(self)@.warp_menu_status | 0x100000,
                ..old(self)@
            }),
    {
        self.warp_menu_status = self.warp_menu_status | 0x100000;
    }

    /// Puts the player into the pose of holding up an item.
    pub fn set_lemeza_item_pose(&mut self)
        ensures
            final(self)@ == (ApplicationView { lemeza_pose: 0xf, ..old(self)@ }),
    {
        self.lemeza_pose = 0xf;
    }

    /// Asks for sound `effect_id`, counted from the game's sound base.
    pub fn play_sound_effect(&mut self, effect_id: u32)
        ensures
            final(self)@ == old(self)@.with_sound(effect_id),
    {
        let sound = self.se.wrapping_add(effect_id);
        self.calls.push(
            HostCall::SetSe {
                sound,
                volume: 0x27,
                balance: 0xf,
                pitch: 0x3f499326,
                delay: 0,
                fade: 0x3f000000,
            },
        );
    }

    /// Opens the game's item dialog for `item_id` and freezes the player
    /// while it shows.
    pub fn create_dialog_popup(&mut self, item_id: u32)
        ensures
            final(self)@ == old(self)@.with_dialog_popup(item_id),
    {
        self.option_stuck(item_id);
        self.calls.push(HostCall::SetViewEventNs { priority: 16, routine: Routine::PopupDialogInit });
        self.pause_game_process();
        self.set_lemeza_item_pose();
        self.disable_warp_menu();
        self.disable_movement();
        self.play_sound_effect(0x618);
    }

    /// The grant effect: the item-get sequence.
    pub fn trigger_grant_effect(&mut self, item_kind_id: u32)
        ensures
            final(self)@ == old(self)@.with_item_given(item_kind_id),
    {
        self.give_item(item_kind_id)
    }

    /// The popup effect: the item dialog.
    pub fn trigger_popup_effect(&mut self, item_kind_id: u32)
        ensures
            final(self)@ == old(self)@.with_dialog_popup(item_kind_id),
    {
        self.create_dialog_popup(item_kind_id)
    }
}

} // verus!
