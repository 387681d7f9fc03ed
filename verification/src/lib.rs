//! Synchronization between a running game of La-Mulana and a multiworld
//! coordination server: what the player finds is reported, and what other
//! players send is granted.
//!
//! The engine never touches the game or the network itself. It works on an
//! image of the game's state and on the frames that the transport hands
//! over, and tells its caller what to write and what to open. Every function
//! of the library is verified against its contract.

use std::collections::HashMap;
use vstd::prelude::*;

pub mod application;
pub mod archipelago;
pub mod lm_structs;
pub mod screenplay;

verus! {

/// A player of the multiworld session: its slot number and display name.
#[derive(Clone)]
pub struct ArchipelagoPlayer {
    pub id: i32,
    pub name: String,
}

/// One row of the item flag table: the location that is reported once the
/// flag byte at `flag` holds `obtain_value`.
#[derive(Clone, Debug, Copy, PartialEq, Eq, Structural)]
pub struct ArchipelagoItem {
    pub flag: u16,
    pub location_id: i64,
    pub player_id: i32,
    pub obtain_value: u8,
}

/// What the setup layer hands to the engine.
#[derive(Clone)]
pub struct AppConfig {
    pub server_url: String,
    pub password: String,
    pub log_file_name: String,
    pub local_player_id: i32,
    pub log_level: String,
    pub players: Vec<ArchipelagoPlayer>,
    pub item_mapping: Vec<ArchipelagoItem>,
}

/// The names of `players` by slot number; of two players with one number
/// the later one counts.
pub open spec fn names_by_id(players: Seq<ArchipelagoPlayer>) -> Map<i32, Seq<char>>
    decreases players.len(),
{
    if players.len() == 0 {
        Map::empty()
    } else {
        names_by_id(players.drop_last()).insert(players.last().id, players.last().name@)
    }
}

/// The rows of `mapping` by flag offset; of two rows with one offset the
/// later one counts.
pub open spec fn rows_by_flag(mapping: Seq<ArchipelagoItem>) -> Map<u16, ArchipelagoItem>
    decreases mapping.len(),
{
    if mapping.len() == 0 {
        Map::empty()
    } else {
        rows_by_flag(mapping.drop_last()).insert(mapping.last().flag, mapping.last())
    }
}

impl AppConfig {
    /// The names of the players by slot number; of two players with one
    /// number the later one counts.
    pub fn players_lookup(&self) -> (lookup: HashMap<i32, String>)
        ensures
            lookup@.dom() == names_by_id(self.players@).dom(),
            forall|id: i32| #[trigger]
                lookup@.contains_key(id) ==> lookup@[id]@ == names_by_id(self.players@)[id],
    {
        let mut lookup: HashMap<i32, String> = HashMap::new();
        let mut i: usize = 0;
        while i < self.players.len()
            invariant
                i <= self.players@.len(),
                lookup@.dom() == names_by_id(self.players@.take(i as int)).dom(),
                forall|id: i32| #[trigger]
                    lookup@.contains_key(id) ==> lookup@[id]@ == names_by_id(
                        self.players@.take(i as int),
                    )[id],
            decreases self.players@.len() - i,
        {
            let name = self.players[i].name.clone();
            lookup.insert(self.players[i].id, name);
            proof {
                assert(self.players@.take(i + 1).drop_last() =~= self.players@.take(i as int));
            }
            i += 1;
        }
        proof {
            assert(self.players@.take(i as int) =~= self.players@);
        }
        lookup
    }

    /// The rows of the item flag table by flag offset; of two rows with one
    /// offset the later one counts.
    pub fn items(&self) -> (lookup: HashMap<u16, ArchipelagoItem>)
        ensures
            lookup@ == rows_by_flag(self.item_mapping@),
    {
        let mut lookup: HashMap<u16, ArchipelagoItem> = HashMap::new();
        let mut i: usize = 0;
        while i < self.item_mapping.len()
            invariant
                i <= self.item_mapping@.len(),
                lookup@ == rows_by_flag(self.item_mapping@.take(i as int)),
            decreases self.item_mapping@.len() - i,
        {
            lookup.insert(self.item_mapping[i].flag, self.item_mapping[i]);
            proof {
                assert(self.item_mapping@.take(i + 1).drop_last() =~= self.item_mapping@.take(
                    i as int,
                ));
            }
            i += 1;
        }
        proof {
            assert(self.item_mapping@.take(i as int) =~= self.item_mapping@);
        }
        lookup
    }
}

} // verus!
