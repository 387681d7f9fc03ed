use lamulana_mw::application::detector::scan;
use lamulana_mw::ArchipelagoItem;

fn row(flag: u16, location_id: i64, obtain_value: u8) -> ArchipelagoItem {
    ArchipelagoItem { flag, location_id, player_id: 0, obtain_value }
}

#[test]
fn scan_reports_the_satisfied_row() {
    let mut flags = vec![0u8; 4096];
    let table = vec![row(0x863, 7, 2)];
    assert_eq!(scan(&flags, &table), Vec::<i64>::new());
    flags[0x863] = 2;
    assert_eq!(scan(&flags, &table), vec![7]);
}

#[test]
fn scanning_twice_finds_the_same() {
    let mut flags = vec![0u8; 4096];
    flags[0x10] = 1;
    flags[0x20] = 2;
    flags[0x30] = 2;
    let table = vec![row(0x30, 3, 2), row(0x10, 1, 1), row(0x20, 2, 1), row(0x40, 4, 2)];
    let first = scan(&flags, &table);
    let second = scan(&flags, &table);
    assert_eq!(first, vec![3, 1]);
    assert_eq!(first, second);
}

#[test]
fn scan_goes_by_the_value_of_each_row() {
    let mut flags = vec![0u8; 16];
    flags[3] = 1;
    flags[4] = 2;
    let table = vec![row(3, 30, 1), row(3, 31, 2), row(4, 40, 2), row(4, 41, 1), row(5, 50, 0)];
    assert_eq!(scan(&flags, &table), vec![30, 40, 50]);
}

#[test]
fn scan_passes_over_rows_outside_the_flags() {
    let flags = vec![2u8; 16];
    let table = vec![row(15, 1, 2), row(16, 2, 2), row(0xffff, 3, 2), row(0, 4, 2)];
    assert_eq!(scan(&flags, &table), vec![1, 4]);
    assert_eq!(scan(&[], &table), Vec::<i64>::new());
    assert_eq!(scan(&flags, &[]), Vec::<i64>::new());
}

#[test]
fn scan_keeps_every_row_of_a_location() {
    let flags = vec![2u8; 4];
    let table = vec![row(0, 9, 2), row(1, 9, 2)];
    assert_eq!(scan(&flags, &table), vec![9, 9]);
}
