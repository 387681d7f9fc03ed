use crate::archipelago::api::{
    Connected, ConnectionRefused, NetworkItem, NetworkPlayer, NetworkSlot, NetworkVersion,
    Permission, ReceivedItems, RoomInfo, ServerPayload, SlotType, Timestamp,
};
use crate::archipelago::json::{texts, JsonField, JsonValue, JsonView};
use vstd::prelude::*;

verus! {

/// The item that an object with the four numbers of an item stands for.
pub open spec fn item_of(tree: JsonView) -> Option<NetworkItem> {
    if tree.int_at("item"@) is Some && tree.int_at("location"@) is Some && tree.int_at("player"@)
        is Some && tree.int_at("flags"@) is Some {
        Some(
            NetworkItem {
                item: tree.int_at("item"@)->0,
                location: tree.int_at("location"@)->0,
                player: tree.int_at("player"@)->0,
                flags: tree.int_at("flags"@)->0,
            },
        )
    } else {
        None
    }
}

/// The items that an array of item objects stands for; nothing if one of
/// its elements is no item.
pub open spec fn items_of(list: Seq<JsonView>) -> Option<Seq<NetworkItem>> {
    if forall|i: int| 0 <= i < list.len() ==> item_of(#[trigger] list[i]) is Some {
        Some(list.map_values(|v: JsonView| item_of(v)->0))
    } else {
        None
    }
}

impl NetworkItem {
    /// Reads a value from `tree`, where `tree` holds what the value needs.
    pub fn from_json(tree: &JsonValue) -> (item: Option<NetworkItem>)
        ensures
            item == item_of(tree@),
    {
        let item = match tree.int_at("item") {
            Some(n) => n,
            None => return None,
        };
        let location = match tree.int_at("location") {
            Some(n) => n,
            None => return None,
        };
        let player = match tree.int_at("player") {
            Some(n) => n,
            None => return None,
        };
        let flags = match tree.int_at("flags") {
            Some(n) => n,
            None => return None,
        };
        Some(NetworkItem { item, location, player, flags })
    }

    /// The items of an array of item objects.
    pub fn list_from_json(list: &Vec<JsonValue>) -> (items: Option<Vec<NetworkItem>>)
        ensures
            match items {
                Some(found) => items_of(list@.map_values(|v: JsonValue| v@)) == Some(found@),
                None => items_of(list@.map_values(|v: JsonValue| v@)) is None,
            },
    {
        let ghost all = list@.map_values(|v: JsonValue| v@);
        let mut found: Vec<NetworkItem> = Vec::new();
        let mut i: usize = 0;
        while i < list.len()
            invariant
                i <= list@.len(),
                all == list@.map_values(|v: JsonValue| v@),
                found@.len() == i,
                forall|j: int| 0 <= j < i ==> item_of(#[trigger] all[j]) == Some(found@[j]),
            decreases list@.len() - i,
        {
            match NetworkItem::from_json(&list[i]) {
                Some(item) => {
                    found.push(item);
                },
                None => {
                    assert(item_of(all[i as int]) is None);
                    return None;
                },
            }
            i += 1;
        }
        Some(found)
    }
}

impl ReceivedItems {
    /// Whether `tree` holds what a message of this kind needs: an index
    /// that fits sixteen bits, and an array of items.
    pub open spec fn readable(tree: JsonView) -> bool {
        &&& tree.int_at("index"@) matches Some(index) && 0 <= index <= u16::MAX
        &&& tree.list_at("items"@) matches Some(list) && items_of(list) is Some
    }

    /// Whether the message holds exactly what `tree` says.
    pub open spec fn read_from(self, tree: JsonView) -> bool {
        &&& tree.int_at("index"@) == Some(self.index as i64)
        &&& tree.list_at("items"@) matches Some(list) && items_of(list) == Some(self.items@)
    }

    /// Reads a value from `tree`, where `tree` holds what the value needs.
    pub fn from_json(tree: &JsonValue) -> (message: Option<ReceivedItems>)
        ensures
            message is Some <==> ReceivedItems::readable(tree@),
            message matches Some(m) ==> m.read_from(tree@),
    {
        let index = match tree.int_at("index") {
            Some(n) => n,
            None => return None,
        };
        if index < 0 || index > u16::MAX as i64 {
            return None;
        }
        let list = match tree.list_at("items") {
            Some(list) => list,
            None => return None,
        };
        let items = match NetworkItem::list_from_json(list) {
            Some(items) => items,
            None => return None,
        };
        Some(ReceivedItems { index: index as u16, items })
    }
}

impl ConnectionRefused {
    /// Whether `tree` holds what a value of this type needs.
    pub open spec fn readable(tree: JsonView) -> bool {
        tree.texts_at("errors"@) is Some
    }

    /// Whether the value holds exactly what `tree` says.
    pub open spec fn read_from(self, tree: JsonView) -> bool {
        tree.texts_at("errors"@) == Some(texts(self.errors@))
    }

    /// Reads a value from `tree`, where `tree` holds what the value needs.
    pub fn from_json(tree: &JsonValue) -> (message: Option<ConnectionRefused>)
        ensures
            message is Some <==> ConnectionRefused::readable(tree@),
            message matches Some(m) ==> m.read_from(tree@),
    {
        match tree.texts_at("errors") {
            Some(errors) => Some(ConnectionRefused { errors }),
            None => None,
        }
    }
}

impl NetworkVersion {
    /// Whether `tree` holds what a value of this type needs.
    pub open spec fn readable(tree: JsonView) -> bool {
        &&& tree.text_at("class"@) is Some
        &&& tree.int_at("build"@) is Some
        &&& tree.int_at("major"@) is Some
        &&& tree.int_at("minor"@) is Some
    }

    /// Whether the value holds exactly what `tree` says.
    pub open spec fn read_from(self, tree: JsonView) -> bool {
        &&& tree.text_at("class"@) == Some(self.class@)
        &&& tree.int_at("build"@) == Some(self.build)
        &&& tree.int_at("major"@) == Some(self.major)
        &&& tree.int_at("minor"@) == Some(self.minor)
    }

    /// Reads a value from `tree`, where `tree` holds what the value needs.
    pub fn from_json(tree: &JsonValue) -> (version: Option<NetworkVersion>)
        ensures
            version is Some <==> NetworkVersion::readable(tree@),
            version matches Some(v) ==> v.read_from(tree@),
    {
        let class = match tree.text_at("class") {
            Some(s) => s,
            None => return None,
        };
        let build = match tree.int_at("build") {
            Some(n) => n,
            None => return None,
        };
        let major = match tree.int_at("major") {
            Some(n) => n,
            None => return None,
        };
        let minor = match tree.int_at("minor") {
            Some(n) => n,
            None => return None,
        };
        Some(NetworkVersion { class, build, major, minor })
    }
}

impl NetworkPlayer {
    /// Whether `tree` holds what a value of this type needs.
    pub open spec fn readable(tree: JsonView) -> bool {
        &&& tree.int_at("team"@) is Some
        &&& tree.int_at("slot"@) is Some
        &&& tree.text_at("alias"@) is Some
        &&& tree.text_at("name"@) is Some
    }

    /// Whether the value holds exactly what `tree` says.
    pub open spec fn read_from(self, tree: JsonView) -> bool {
        &&& tree.int_at("team"@) == Some(self.team)
        &&& tree.int_at("slot"@) == Some(self.slot)
        &&& tree.text_at("alias"@) == Some(self.alias@)
        &&& tree.text_at("name"@) == Some(self.name@)
    }

    /// Reads a value from `tree`, where `tree` holds what the value needs.
    pub fn from_json(tree: &JsonValue) -> (player: Option<NetworkPlayer>)
        ensures
            player is Some <==> NetworkPlayer::readable(tree@),
            player matches Some(p) ==> p.read_from(tree@),
    {
        let team = match tree.int_at("team") {
            Some(n) => n,
            None => return None,
        };
        let slot = match tree.int_at("slot") {
            Some(n) => n,
            None => return None,
        };
        let alias = match tree.text_at("alias") {
            Some(s) => s,
            None => return None,
        };
        let name = match tree.text_at("name") {
            Some(s) => s,
            None => return None,
        };
        Some(NetworkPlayer { team, slot, alias, name })
    }

    /// Whether every element of `list` holds a player.
    pub open spec fn all_readable(list: Seq<JsonView>) -> bool {
        forall|i: int| 0 <= i < list.len() ==> NetworkPlayer::readable(#[trigger] list[i])
    }

    /// Whether `players` hold, one for one, what the elements of `list` say.
    pub open spec fn all_read_from(players: Seq<NetworkPlayer>, list: Seq<JsonView>) -> bool {
        &&& players.len() == list.len()
        &&& forall|i: int| 0 <= i < list.len() ==> (#[trigger] players[i]).read_from(list[i])
    }

    /// Reads the elements of `list` one by one; there is no result if one of
    /// them cannot be read.
    pub fn list_from_json(list: &Vec<JsonValue>) -> (players: Option<Vec<NetworkPlayer>>)
        ensures
            players is Some <==> NetworkPlayer::all_readable(list@.map_values(|v: JsonValue| v@)),
            players matches Some(found) ==> NetworkPlayer::all_read_from(
                found@,
                list@.map_values(|v: JsonValue| v@),
            ),
    {
        let ghost all = list@.map_values(|v: JsonValue| v@);
        let mut found: Vec<NetworkPlayer> = Vec::new();
        let mut i: usize = 0;
        while i < list.len()
            invariant
                i <= list@.len(),
                all == list@.map_values(|v: JsonValue| v@),
                found@.len() == i,
                forall|j: int| 0 <= j < i ==> NetworkPlayer::readable(#[trigger] all[j]),
                forall|j: int| 0 <= j < i ==> (#[trigger] found@[j]).read_from(all[j]),
            decreases list@.len() - i,
        {
            match NetworkPlayer::from_json(&list[i]) {
                Some(player) => {
                    found.push(player);
                },
                None => {
                    assert(!NetworkPlayer::readable(all[i as int]));
                    return None;
                },
            }
            i += 1;
        }
        Some(found)
    }
}

/// The number that `tree` holds, if it is one that fits eight bits.
pub open spec fn small_code(tree: JsonView) -> Option<u8> {
    match tree.as_int() {
        Some(n) => if 0 <= n <= u8::MAX {
            Some(n as u8)
        } else {
            None
        },
        None => None,
    }
}

/// The number that `tree` holds, where it fits eight bits.
pub fn read_small_code(tree: &JsonValue) -> (code: Option<u8>)
    ensures
        code == small_code(tree@),
{
    match tree.as_int() {
        Some(n) => {
            if 0 <= n && n <= u8::MAX as i64 {
                Some(n as u8)
            } else {
                None
            }
        },
        None => None,
    }
}

impl SlotType {
    /// The slot type that the number in `tree` stands for.
    pub open spec fn of_tree(tree: JsonView) -> Option<SlotType> {
        match small_code(tree) {
            Some(code) => SlotType::of_code(code),
            None => None,
        }
    }

    /// Reads a value from `tree`, where `tree` holds what the value needs.
    pub fn from_json(tree: &JsonValue) -> (slot_type: Option<SlotType>)
        ensures
            slot_type == SlotType::of_tree(tree@),
    {
        match read_small_code(tree) {
            Some(code) => SlotType::from_code(code),
            None => None,
        }
    }
}

impl Permission {
    /// The permission that the number in `tree` stands for.
    pub open spec fn of_tree(tree: JsonView) -> Option<Permission> {
        match small_code(tree) {
            Some(code) => Permission::of_code(code),
            None => None,
        }
    }

    /// Reads a value from `tree`, where `tree` holds what the value needs.
    pub fn from_json(tree: &JsonValue) -> (permission: Option<Permission>)
        ensures
            permission == Permission::of_tree(tree@),
    {
        match read_small_code(tree) {
            Some(code) => Permission::from_code(code),
            None => None,
        }
    }

    /// Whether every member of `members` holds a permission.
    pub open spec fn all_readable(members: Seq<(Seq<char>, JsonView)>) -> bool {
        forall|i: int|
            0 <= i < members.len() ==> Permission::of_tree((#[trigger] members[i]).1) is Some
    }

    /// Whether `pairs` hold, one for one, the names and permissions of
    /// `members`.
    pub open spec fn all_read_from(
        pairs: Seq<(String, Permission)>,
        members: Seq<(Seq<char>, JsonView)>,
    ) -> bool {
        &&& pairs.len() == members.len()
        &&& forall|i: int|
            0 <= i < members.len() ==> (#[trigger] pairs[i]).0@ == members[i].0
                && Permission::of_tree(members[i].1) == Some(pairs[i].1)
    }

    /// Reads the members of an object one by one; there is no result if one
    /// of them cannot be read.
    pub fn map_from_json(fields: &Vec<JsonField>) -> (pairs: Option<Vec<(String, Permission)>>)
        ensures
            pairs is Some <==> Permission::all_readable(
                fields@.map_values(|f: JsonField| (f.name@, f.value@)),
            ),
            pairs matches Some(found) ==> Permission::all_read_from(
                found@,
                fields@.map_values(|f: JsonField| (f.name@, f.value@)),
            ),
    {
        let ghost members = fields@.map_values(|f: JsonField| (f.name@, f.value@));
        let mut found: Vec<(String, Permission)> = Vec::new();
        let mut i: usize = 0;
        while i < fields.len()
            invariant
                i <= fields@.len(),
                members == fields@.map_values(|f: JsonField| (f.name@, f.value@)),
                found@.len() == i,
                forall|j: int|
                    0 <= j < i ==> Permission::of_tree((#[trigger] members[j]).1) is Some,
                forall|j: int|
                    0 <= j < i ==> (#[trigger] found@[j]).0@ == members[j].0
                        && Permission::of_tree(members[j].1) == Some(found@[j].1),
            decreases fields@.len() - i,
        {
            match Permission::from_json(&fields[i].value) {
                Some(permission) => {
                    found.push((fields[i].name.clone(), permission));
                },
                None => {
                    assert(Permission::of_tree(members[i as int].1) is None);
                    return None;
                },
            }
            i += 1;
        }
        Some(found)
    }
}

/// Whether every member of `members` holds a string.
pub open spec fn strings_readable(members: Seq<(Seq<char>, JsonView)>) -> bool {
    forall|i: int| 0 <= i < members.len() ==> (#[trigger] members[i]).1 is Text
}

/// Whether `pairs` hold, one for one, the names and strings of `members`.
pub open spec fn strings_read_from(
    pairs: Seq<(String, String)>,
    members: Seq<(Seq<char>, JsonView)>,
) -> bool {
    &&& pairs.len() == members.len()
    &&& forall|i: int|
        0 <= i < members.len() ==> (#[trigger] pairs[i]).0@ == members[i].0 && members[i].1
            == JsonView::Text(pairs[i].1@)
}

/// The names and strings of an object that holds nothing but strings.
pub fn strings_from_json(fields: &Vec<JsonField>) -> (pairs: Option<Vec<(String, String)>>)
    ensures
        pairs is Some <==> strings_readable(fields@.map_values(|f: JsonField| (f.name@, f.value@))),
        pairs matches Some(found) ==> strings_read_from(
            found@,
            fields@.map_values(|f: JsonField| (f.name@, f.value@)),
        ),
{
    let ghost members = fields@.map_values(|f: JsonField| (f.name@, f.value@));
    let mut found: Vec<(String, String)> = Vec::new();
    let mut i: usize = 0;
    while i < fields.len()
        invariant
            i <= fields@.len(),
            members == fields@.map_values(|f: JsonField| (f.name@, f.value@)),
            found@.len() == i,
            forall|j: int| 0 <= j < i ==> (#[trigger] members[j]).1 is Text,
            forall|j: int|
                0 <= j < i ==> (#[trigger] found@[j]).0@ == members[j].0 && members[j].1
                    == JsonView::Text(found@[j].1@),
        decreases fields@.len() - i,
    {
        match fields[i].value.as_text() {
            Some(text) => {
                found.push((fields[i].name.clone(), text));
            },
            None => {
                assert(!(members[i as int].1 is Text));
                return None;
            },
        }
        i += 1;
    }
    Some(found)
}

impl NetworkSlot {
    /// Whether `tree` holds what a value of this type needs.
    pub open spec fn readable(tree: JsonView) -> bool {
        &&& tree.text_at("name"@) is Some
        &&& tree.text_at("game"@) is Some
        &&& tree.field("type"@) matches Some(kind) && SlotType::of_tree(kind) is Some
        &&& tree.ints_at("group_members"@) is Some
    }

    /// Whether the value holds exactly what `tree` says.
    pub open spec fn read_from(self, tree: JsonView) -> bool {
        &&& tree.text_at("name"@) == Some(self.name@)
        &&& tree.text_at("game"@) == Some(self.game@)
        &&& tree.field("type"@) matches Some(kind) && SlotType::of_tree(kind) == Some(self.kind)
        &&& tree.ints_at("group_members"@) == Some(self.group_members@)
    }

    /// Reads a value from `tree`, where `tree` holds what the value needs.
    pub fn from_json(tree: &JsonValue) -> (slot: Option<NetworkSlot>)
        ensures
            slot is Some <==> NetworkSlot::readable(tree@),
            slot matches Some(s) ==> s.read_from(tree@),
    {
        let name = match tree.text_at("name") {
            Some(s) => s,
            None => return None,
        };
        let game = match tree.text_at("game") {
            Some(s) => s,
            None => return None,
        };
        let kind = match tree.field("type") {
            Some(value) => match SlotType::from_json(value) {
                Some(kind) => kind,
                None => return None,
            },
            None => return None,
        };
        let group_members = match tree.ints_at("group_members") {
            Some(list) => list,
            None => return None,
        };
        Some(NetworkSlot { name, game, kind, group_members })
    }

    /// Whether every member of `members` holds a slot.
    pub open spec fn all_readable(members: Seq<(Seq<char>, JsonView)>) -> bool {
        forall|i: int| 0 <= i < members.len() ==> NetworkSlot::readable((#[trigger] members[i]).1)
    }

    /// Whether `pairs` hold, one for one, the names and slots of `members`.
    pub open spec fn all_read_from(
        pairs: Seq<(String, NetworkSlot)>,
        members: Seq<(Seq<char>, JsonView)>,
    ) -> bool {
        &&& pairs.len() == members.len()
        &&& forall|i: int|
            0 <= i < members.len() ==> (#[trigger] pairs[i]).0@ == members[i].0
                && pairs[i].1.read_from(members[i].1)
    }

    /// Reads the members of an object one by one; there is no result if one
    /// of them cannot be read.
    pub fn map_from_json(fields: &Vec<JsonField>) -> (pairs: Option<Vec<(String, NetworkSlot)>>)
        ensures
            pairs is Some <==> NetworkSlot::all_readable(
                fields@.map_values(|f: JsonField| (f.name@, f.value@)),
            ),
            pairs matches Some(found) ==> NetworkSlot::all_read_from(
                found@,
                fields@.map_values(|f: JsonField| (f.name@, f.value@)),
            ),
    {
        let ghost members = fields@.map_values(|f: JsonField| (f.name@, f.value@));
        let mut found: Vec<(String, NetworkSlot)> = Vec::new();
        let mut i: usize = 0;
        while i < fields.len()
            invariant
                i <= fields@.len(),
                members == fields@.map_values(|f: JsonField| (f.name@, f.value@)),
                found@.len() == i,
                forall|j: int| 0 <= j < i ==> NetworkSlot::readable((#[trigger] members[j]).1),
                forall|j: int|
                    0 <= j < i ==> (#[trigger] found@[j]).0@ == members[j].0
                        && found@[j].1.read_from(members[j].1),
            decreases fields@.len() - i,
        {
            match NetworkSlot::from_json(&fields[i].value) {
                Some(slot) => {
                    found.push((fields[i].name.clone(), slot));
                },
                None => {
                    assert(!NetworkSlot::readable(members[i as int].1));
                    return None;
                },
            }
            i += 1;
        }
        Some(found)
    }
}

impl Timestamp {
    /// Whether `tree` holds what a value of this type needs.
    pub open spec fn readable(tree: JsonView) -> bool {
        tree is Int || tree is Real
    }

    /// Whether the value holds exactly what `tree` says.
    pub open spec fn read_from(self, tree: JsonView) -> bool {
        match self {
            Timestamp::Whole(seconds) => tree == JsonView::Int(seconds),
            Timestamp::Fraction(text) => tree == JsonView::Real(text@),
        }
    }

    /// Reads a value from `tree`, where `tree` holds what the value needs.
    pub fn from_json(tree: &JsonValue) -> (time: Option<Timestamp>)
        ensures
            time is Some <==> Timestamp::readable(tree@),
            time matches Some(t) ==> t.read_from(tree@),
    {
        match tree {
            JsonValue::Int(seconds) => Some(Timestamp::Whole(*seconds)),
            JsonValue::Real(text) => Some(Timestamp::Fraction(text.clone())),
            _ => None,
        }
    }
}

impl Connected {
    /// Whether `tree` holds what a message of this kind needs. The slot data
    /// may be missing or null; where it is there, it is an object of strings.
    pub open spec fn readable(tree: JsonView) -> bool {
        &&& tree.int_at("team"@) is Some
        &&& tree.int_at("slot"@) is Some
        &&& tree.list_at("players"@) matches Some(list) && NetworkPlayer::all_readable(list)
        &&& tree.ints_at("missing_locations"@) is Some
        &&& tree.ints_at("checked_locations"@) is Some
        &&& tree.absent("slot_data"@) || (tree.object_at("slot_data"@) matches Some(members)
            && strings_readable(members))
        &&& tree.object_at("slot_info"@) matches Some(members) && NetworkSlot::all_readable(
            members,
        )
        &&& tree.int_at("hint_points"@) is Some
    }

    /// Whether the message holds exactly what `tree` says.
    pub open spec fn read_from(self, tree: JsonView) -> bool {
        &&& tree.int_at("team"@) == Some(self.team)
        &&& tree.int_at("slot"@) == Some(self.slot)
        &&& tree.list_at("players"@) matches Some(list) && NetworkPlayer::all_read_from(
            self.players@,
            list,
        )
        &&& tree.ints_at("missing_locations"@) == Some(self.missing_locations@)
        &&& tree.ints_at("checked_locations"@) == Some(self.checked_locations@)
        &&& match self.slot_data {
            Some(pairs) => {
                &&& !tree.absent("slot_data"@)
                &&& tree.object_at("slot_data"@) matches Some(members) && strings_read_from(
                    pairs@,
                    members,
                )
            },
            None => tree.absent("slot_data"@),
        }
        &&& tree.object_at("slot_info"@) matches Some(members) && NetworkSlot::all_read_from(
            self.slot_info@,
            members,
        )
        &&& tree.int_at("hint_points"@) == Some(self.hint_points)
    }

    /// Reads a value from `tree`, where `tree` holds what the value needs.
    pub fn from_json(tree: &JsonValue) -> (message: Option<Connected>)
        ensures
            message is Some <==> Connected::readable(tree@),
            message matches Some(m) ==> m.read_from(tree@),
    {
        let team = match tree.int_at("team") {
            Some(n) => n,
            None => return None,
        };
        let slot = match tree.int_at("slot") {
            Some(n) => n,
            None => return None,
        };
        let players = match tree.list_at("players") {
            Some(list) => match NetworkPlayer::list_from_json(list) {
                Some(players) => players,
                None => return None,
            },
            None => return None,
        };
        let missing_locations = match tree.ints_at("missing_locations") {
            Some(list) => list,
            None => return None,
        };
        let checked_locations = match tree.ints_at("checked_locations") {
            Some(list) => list,
            None => return None,
        };
        let slot_data = if tree.absent("slot_data") {
            None
        } else {
            match tree.object_at("slot_data") {
                Some(members) => match strings_from_json(members) {
                    Some(pairs) => Some(pairs),
                    None => return None,
                },
                None => return None,
            }
        };
        let slot_info = match tree.object_at("slot_info") {
            Some(members) => match NetworkSlot::map_from_json(members) {
                Some(pairs) => pairs,
                None => return None,
            },
            None => return None,
        };
        let hint_points = match tree.int_at("hint_points") {
            Some(n) => n,
            None => return None,
        };
        Some(
            Connected {
                team,
                slot,
                players,
                missing_locations,
                checked_locations,
                slot_data,
                slot_info,
                hint_points,
            },
        )
    }
}

impl RoomInfo {
    /// Whether `tree` holds what a message of this kind needs.
    pub open spec fn readable(tree: JsonView) -> bool {
        &&& tree.field("version"@) matches Some(version) && NetworkVersion::readable(version)
        &&& tree.field("generator_version"@) matches Some(version) && NetworkVersion::readable(
            version,
        )
        &&& tree.texts_at("tags"@) is Some
        &&& tree.bool_at("password"@) is Some
        &&& tree.object_at("permissions"@) matches Some(members) && Permission::all_readable(
            members,
        )
        &&& tree.int_at("hint_cost"@) is Some
        &&& tree.int_at("location_check_points"@) is Some
        &&& tree.texts_at("games"@) is Some
        &&& tree.object_at("datapackage_checksums"@) matches Some(members) && strings_readable(
            members,
        )
        &&& tree.text_at("seed_name"@) is Some
        &&& tree.field("time"@) matches Some(time) && Timestamp::readable(time)
    }

    /// Whether the message holds exactly what `tree` says.
    pub open spec fn read_from(self, tree: JsonView) -> bool {
        &&& tree.field("version"@) matches Some(version) && self.version.read_from(version)
        &&& tree.field("generator_version"@) matches Some(version)
            && self.generator_version.read_from(version)
        &&& tree.texts_at("tags"@) == Some(texts(self.tags@))
        &&& tree.bool_at("password"@) == Some(self.password)
        &&& tree.object_at("permissions"@) matches Some(members) && Permission::all_read_from(
            self.permissions@,
            members,
        )
        &&& tree.int_at("hint_cost"@) == Some(self.hint_cost)
        &&& tree.int_at("location_check_points"@) == Some(self.location_check_points)
        &&& tree.texts_at("games"@) == Some(texts(self.games@))
        &&& tree.object_at("datapackage_checksums"@) matches Some(members) && strings_read_from(
            self.datapackage_checksums@,
            members,
        )
        &&& tree.text_at("seed_name"@) == Some(self.seed_name@)
        &&& tree.field("time"@) matches Some(time) && self.time.read_from(time)
    }

    /// Reads a value from `tree`, where `tree` holds what the value needs.
    pub fn from_json(tree: &JsonValue) -> (message: Option<RoomInfo>)
        ensures
            message is Some <==> RoomInfo::readable(tree@),
            message matches Some(m) ==> m.read_from(tree@),
    {
        let version = match tree.field("version") {
            Some(value) => match NetworkVersion::from_json(value) {
                Some(version) => version,
                None => return None,
            },
            None => return None,
        };
        let generator_version = match tree.field("generator_version") {
            Some(value) => match NetworkVersion::from_json(value) {
                Some(version) => version,
                None => return None,
            },
            None => return None,
        };
        let tags = match tree.texts_at("tags") {
            Some(list) => list,
            None => return None,
        };
        let password = match tree.bool_at("password") {
            Some(b) => b,
            None => return None,
        };
        let permissions = match tree.object_at("permissions") {
            Some(members) => match Permission::map_from_json(members) {
                Some(pairs) => pairs,
                None => return None,
            },
            None => return None,
        };
        let hint_cost = match tree.int_at("hint_cost") {
            Some(n) => n,
            None => return None,
        };
        let location_check_points = match tree.int_at("location_check_points") {
            Some(n) => n,
            None => return None,
        };
        let games = match tree.texts_at("games") {
            Some(list) => list,
            None => return None,
        };
        let datapackage_checksums = match tree.object_at("datapackage_checksums") {
            Some(members) => match strings_from_json(members) {
                Some(pairs) => pairs,
                None => return None,
            },
            None => return None,
        };
        let seed_name = match tree.text_at("seed_name") {
            Some(s) => s,
            None => return None,
        };
        let time = match tree.field("time") {
            Some(value) => match Timestamp::from_json(value) {
                Some(time) => time,
                None => return None,
            },
            None => return None,
        };
        Some(
            RoomInfo {
                version,
                generator_version,
                tags,
                password,
                permissions,
                hint_cost,
                location_check_points,
                games,
                datapackage_checksums,
                seed_name,
                time,
            },
        )
    }
}

/// What the codec makes of one object of a frame: a message of a kind it
/// reads, or the mark that it does not read it.
#[derive(Debug)]
pub enum Decoded {
    Message(ServerPayload),
    Unrecognized,
}

/// The kinds of message that the codec tells apart.
#[derive(Debug, Clone, Copy, PartialEq, Eq, Structural)]
pub enum Kind {
    RoomInfo,
    ConnectionRefused,
    Connected,
    ReceivedItems,
    Unrecognized,
}

/// The kind of message that `tree` holds: the one that its `cmd` names, if
/// that is one of the four that the codec reads and `tree` holds what that
/// kind needs.
pub open spec fn kind_of(tree: JsonView) -> Kind {
    match tree.text_at("cmd"@) {
        Some(cmd) => if cmd == "RoomInfo"@ {
            if RoomInfo::readable(tree) {
                Kind::RoomInfo
            } else {
                Kind::Unrecognized
            }
        } else if cmd == "ConnectionRefused"@ {
            if ConnectionRefused::readable(tree) {
                Kind::ConnectionRefused
            } else {
                Kind::Unrecognized
            }
        } else if cmd == "Connected"@ {
            if Connected::readable(tree) {
                Kind::Connected
            } else {
                Kind::Unrecognized
            }
        } else if cmd == "ReceivedItems"@ {
            if ReceivedItems::readable(tree) {
                Kind::ReceivedItems
            } else {
                Kind::Unrecognized
            }
        } else {
            Kind::Unrecognized
        },
        None => Kind::Unrecognized,
    }
}

/// Whether `tree` is a message that the codec reads.
pub open spec fn recognized(tree: JsonView) -> bool {
    kind_of(tree) != Kind::Unrecognized
}

impl ServerPayload {
    /// Whether the payload is of the kind of `tree` and holds exactly what
    /// `tree` says.
    pub open spec fn read_from(self, tree: JsonView) -> bool {
        match self {
            ServerPayload::RoomInfo(m) => kind_of(tree) == Kind::RoomInfo && m.read_from(tree),
            ServerPayload::ConnectionRefused(m) => kind_of(tree) == Kind::ConnectionRefused
                && m.read_from(tree),
            ServerPayload::Connected(m) => kind_of(tree) == Kind::Connected && m.read_from(tree),
            ServerPayload::ReceivedItems(m) => kind_of(tree) == Kind::ReceivedItems && m.read_from(
                tree,
            ),
            _ => false,
        }
    }
}

impl Decoded {
    /// Whether this is what the codec makes of `tree`.
    pub open spec fn made_of(self, tree: JsonView) -> bool {
        match self {
            Decoded::Message(payload) => payload.read_from(tree),
            Decoded::Unrecognized => !recognized(tree),
        }
    }
}

/// Reads one object of a frame. An object of a kind that the codec does not
/// read, or one that lacks what its kind needs, is no failure: it comes out
/// as `Unrecognized`.
pub fn decode_message(tree: &JsonValue) -> (decoded: Decoded)
    ensures
        decoded.made_of(tree@),
{
    let cmd = match tree.text_at("cmd") {
        Some(cmd) => cmd,
        None => return Decoded::Unrecognized,
    };
    if cmd == String::from_str("RoomInfo") {
        match RoomInfo::from_json(tree) {
            Some(m) => Decoded::Message(ServerPayload::RoomInfo(m)),
            None => Decoded::Unrecognized,
        }
    } else if cmd == String::from_str("ConnectionRefused") {
        match ConnectionRefused::from_json(tree) {
            Some(m) => Decoded::Message(ServerPayload::ConnectionRefused(m)),
            None => Decoded::Unrecognized,
        }
    } else if cmd == String::from_str("Connected") {
        match Connected::from_json(tree) {
            Some(m) => Decoded::Message(ServerPayload::Connected(m)),
            None => Decoded::Unrecognized,
        }
    } else if cmd == String::from_str("ReceivedItems") {
        match ReceivedItems::from_json(tree) {
            Some(m) => Decoded::Message(ServerPayload::ReceivedItems(m)),
            None => Decoded::Unrecognized,
        }
    } else {
        Decoded::Unrecognized
    }
}

} // verus!
