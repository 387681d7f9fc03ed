use crate::ArchipelagoItem;
use vstd::prelude::*;

verus! {

/// A row is satisfied when its flag byte lies inside `flags` and holds the
/// row's value.
pub open spec fn satisfied(flags: Seq<u8>, row: ArchipelagoItem) -> bool {
    row.flag < flags.len() && flags[row.flag as int] == row.obtain_value
}

/// The locations of the satisfied rows of `table`, in table order.
pub open spec fn found_locations(flags: Seq<u8>, table: Seq<ArchipelagoItem>) -> Seq<i64> {
    table.filter(|row: ArchipelagoItem| satisfied(flags, row)).map_values(
        |row: ArchipelagoItem| row.location_id,
    )
}

/// Compares every row of the table with the current flags and collects the
/// locations whose flag byte holds the row's value. The scan is complete each
/// time it runs: it keeps nothing between two calls.
pub fn scan(current_flags: &[u8], item_flag_table: &[ArchipelagoItem]) -> (found: Vec<i64>)
    ensures
        found@ == found_locations(current_flags@, item_flag_table@),
{
    let ghost hit = |row: ArchipelagoItem| satisfied(current_flags@, row);
    let ghost place = |row: ArchipelagoItem| row.location_id;
    let mut found: Vec<i64> = Vec::new();
    let mut i: usize = 0;
    while i < item_flag_table.len()
        invariant
            i <= item_flag_table@.len(),
            hit == |row: ArchipelagoItem| satisfied(current_flags@, row),
            place == |row: ArchipelagoItem| row.location_id,
            found@ == item_flag_table@.take(i as int).filter(hit).map_values(place),
        decreases item_flag_table@.len() - i,
    {
        let row = item_flag_table[i];
        let offset = row.flag as usize;
        proof {
            reveal(Seq::filter);
            assert(item_flag_table@.take(i + 1).drop_last() =~= item_flag_table@.take(i as int));
        }
        if offset < current_flags.len() && current_flags[offset] == row.obtain_value {
            found.push(row.location_id);
        }
        i += 1;
    }
    proof {
        assert(item_flag_table@.take(i as int) =~= item_flag_table@);
    }
    found
}

/// Two scans of the same flags against the same table find the same
/// locations, in the same order.
pub proof fn scan_is_idempotent(
    flags: Seq<u8>,
    table: Seq<ArchipelagoItem>,
    first: Seq<i64>,
    second: Seq<i64>,
)
    requires
        first == found_locations(flags, table),
        second == found_locations(flags, table),
    ensures
        first == second,
        first.to_set() == second.to_set(),
{
}

} // verus!
