use std::collections::HashMap;
use vstd::prelude::*;

verus! {

/// The player's possessions as the game keeps them.
#[derive(Debug, Clone, Copy)]
pub struct ItemPossessionBuffer {
    pub main_weapon: [u8; 5],
    pub main_select: u8,
    pub main_box: u8,
    pub sub: [u8; 10],
    pub sub_num: [u8; 10],
    pub sub_select: u8,
    pub sub_box: u8,
    pub uses: [u8; 15],
    pub use_select: u8,
    pub use_box: u8,
    pub lamp_num: u8,
    pub items: [u8; 30],
    pub key: [u8; 5],
}

/// Where an item lives in the possession buffer, and the value it has there.
#[derive(Debug, Clone, Copy, PartialEq, Eq, Structural)]
pub struct ItemValue {
    pub index: u8,
    pub value: u8,
}

/// The rule that decides whether an item of some kind may be granted now.
#[derive(Debug, Clone, Copy, PartialEq, Eq, Structural)]
pub enum Guard {
    /// A counter that every grant raises: always allowed.
    Consumable,
    /// Owned at most once: allowed while the item's flag byte is zero.
    OwnedOnceFlag,
    /// Owned at most once: allowed while the item's inventory word is zero.
    OwnedOnceInventory,
}

/// One kind of item of the game: its number in the inventory, its name, the
/// flag byte that records it, the value that byte takes once the item is
/// granted, and the rule that guards a grant.
#[derive(Debug, Clone)]
pub struct Item {
    pub item_id: usize,
    pub item_name: String,
    pub flag: usize,
    pub value: u8,
    pub guard: Guard,
}

/// Most kinds of item that have a word in the inventory.
pub const INVENTORY_KINDS: usize = 104;

impl Guard {
    /// The rule for a kind of item where the table gives none: the ankh
    /// jewels, the sacred orbs and kind 70 go by their flag, the kinds beyond
    /// the inventory are counters, and all others go by their inventory word.
    pub open spec fn default_for(item_id: usize) -> Guard {
        if item_id == 70 || item_id == 19 || item_id == 69 {
            Guard::OwnedOnceFlag
        } else if item_id > INVENTORY_KINDS {
            Guard::Consumable
        } else {
            Guard::OwnedOnceInventory
        }
    }

    /// The rule for a kind of item where the table gives none.
    pub fn by_item_id(item_id: usize) -> (guard: Guard)
        ensures
            guard == Guard::default_for(item_id),
    {
        if item_id == 70 || item_id == 19 || item_id == 69 {
            Guard::OwnedOnceFlag
        } else if item_id > INVENTORY_KINDS {
            Guard::Consumable
        } else {
            Guard::OwnedOnceInventory
        }
    }
}

/// Whether the translator places item `item` by a rule of its own rather
/// than by the range it lies in.
pub open spec fn placed_singly(item: u8) -> bool {
    item <= 7 || 77 <= item <= 81
}

/// Where the translator places item `item`, if it places it at all.
pub open spec fn translated(item: u8) -> Option<ItemValue> {
    if item <= 2 {
        Some(ItemValue { index: 0, value: item })
    } else if item <= 6 {
        Some(ItemValue { index: (item - 2) as u8, value: item })
    } else if item == 7 {
        Some(ItemValue { index: 2, value: 7 })
    } else if 20 <= item < 34 {
        Some(ItemValue { index: (item + 9) as u8, value: item })
    } else if 35 <= item < 63 || 64 <= item < 67 {
        Some(ItemValue { index: (item + 13) as u8, value: item })
    } else if item == 77 {
        Some(ItemValue { index: 34, value: 80 })
    } else if item == 78 {
        Some(ItemValue { index: 40, value: 81 })
    } else if item == 79 {
        Some(ItemValue { index: 52, value: 82 })
    } else if item == 80 {
        Some(ItemValue { index: 52, value: 83 })
    } else if item == 81 {
        Some(ItemValue { index: 81, value: 84 })
    } else {
        None
    }
}

/// The part of the translator that is there once the ranges have been
/// walked up to `upto`.
pub open spec fn translator_upto(upto: int) -> Map<u8, ItemValue> {
    Map::new(
        |item: u8| translated(item) is Some && (placed_singly(item) || item < upto),
        |item: u8| translated(item)->0,
    )
}

/// Builds the table that places the items of the game in the possession
/// buffer: the weapons, the usable items, the plain items, the keys and the
/// few that follow a rule of their own.
pub fn generate_item_translator() -> (hash: HashMap<u8, ItemValue>)
    ensures
        forall|item: u8| #[trigger] hash@.contains_key(item) <==> translated(item) is Some,
        forall|item: u8| #[trigger] hash@.contains_key(item) ==> hash@[item] == translated(item)->0,
{
    let mut hash: HashMap<u8, ItemValue> = HashMap::new();
    hash.insert(0, ItemValue { index: 0, value: 0 });
    hash.insert(1, ItemValue { index: 0, value: 1 });
    hash.insert(2, ItemValue { index: 0, value: 2 });
    hash.insert(3, ItemValue { index: 1, value: 3 });
    hash.insert(4, ItemValue { index: 2, value: 4 });
    hash.insert(5, ItemValue { index: 3, value: 5 });
    hash.insert(6, ItemValue { index: 4, value: 6 });
    hash.insert(7, ItemValue { index: 2, value: 7 });
    hash.insert(77, ItemValue { index: 34, value: 80 });
    hash.insert(78, ItemValue { index: 40, value: 81 });
    hash.insert(79, ItemValue { index: 52, value: 82 });
    hash.insert(80, ItemValue { index: 52, value: 83 });
    hash.insert(81, ItemValue { index: 81, value: 84 });

    // the usable items
    let mut i: u8 = 20;
    while i < 34
        invariant
            20 <= i <= 34,
            hash@ =~= translator_upto(i as int),
        decreases 34 - i,
    {
        if !hash.contains_key(&i) {
            hash.insert(i, ItemValue { index: i + 9, value: i });
        }
        i += 1;
    }

    // the plain items
    let mut i: u8 = 35;
    while i < 63
        invariant
            35 <= i <= 63,
            hash@ =~= translator_upto(i as int),
        decreases 63 - i,
    {
        if !hash.contains_key(&i) {
            hash.insert(i, ItemValue { index: i + 13, value: i });
        }
        i += 1;
    }

    // the keys
    let mut i: u8 = 64;
    while i < 67
        invariant
            64 <= i <= 67,
            hash@ =~= translator_upto(i as int),
        decreases 67 - i,
    {
        if !hash.contains_key(&i) {
            hash.insert(i, ItemValue { index: i + 13, value: i });
        }
        i += 1;
    }
    hash
}

} // verus!
