use lamulana_mw::screenplay::{count_glyphs, decode, encode, font_table, FONT};

#[test]
fn encode_gives_the_codes_of_the_glyphs() {
    assert_eq!(encode("A".to_string()), vec![0x116]);
    assert_eq!(encode("Test!".to_string()), vec![0x129, 0x138, 0x146, 0x147, 0x100]);
    assert_eq!(encode("  Test Test".to_string()), vec![0x20, 0x20, 0x129, 0x138, 0x146, 0x147, 0x20, 0x129, 0x138, 0x146, 0x147]);
    assert_eq!(encode("a0Zz?".to_string()), vec![0x134, 0x10a, 0x12f, 0x14d, 0x115]);
    assert_eq!(encode("ーü".to_string()), vec![0x1f7, 0x535]);
    assert_eq!(encode(String::new()), Vec::<u16>::new());
}

#[test]
fn encode_leaves_a_blank_for_a_letter_without_a_glyph() {
    assert_eq!(encode("A#B".to_string()), vec![0x116, 0x20, 0x117]);
    assert_eq!(encode("~\n@".to_string()), vec![0x20, 0x20, 0x20]);
}

#[test]
fn encode_takes_the_first_of_two_glyphs_of_a_letter() {
    let first = FONT.chars().position(|c| c == 'Ｄ').unwrap();
    let last = FONT.chars().count() - 1 - FONT.chars().rev().position(|c| c == 'Ｄ').unwrap();
    assert!(first < last);
    assert_eq!(encode("Ｄ".to_string()), vec![(first + 0x100) as u16]);
}

#[test]
fn decode_reads_breaks_blanks_and_glyphs() {
    assert_eq!(decode(&[0x116, 0x20, 0x117, 0x000a, 0x129]), "A B<break>T");
    assert_eq!(decode(&[]), "");
    assert_eq!(decode(&[0x1f7, 0x535]), "ーü");
}

#[test]
fn decode_passes_over_words_that_are_no_glyphs() {
    let beyond = (0x100 + FONT.chars().count()) as u16;
    assert_eq!(decode(&[0x116, 0x00, 0x21, 0xff, beyond, 0xffff, 0x117]), "AB");
    assert_eq!(decode(&[beyond - 1]), FONT.chars().last().unwrap().to_string());
}

#[test]
fn decoding_gives_back_what_was_encoded() {
    let text = "  From Mulbruk! 0123 ".to_string();
    assert_eq!(decode(&encode(text.clone())), text);
}

#[test]
fn the_table_holds_the_font() {
    let table = font_table();
    assert_eq!(table.len(), 1523);
    assert_eq!(table[0], '!');
    assert_eq!(table[22], 'A');
    assert_eq!(table, FONT.chars().collect::<Vec<char>>());
}

#[test]
fn glyphs_are_the_words_from_the_first_code_on() {
    assert_eq!(count_glyphs(&[0x20, 0x20, 0x116, 0x115, 0x000a]), 2);
    assert_eq!(count_glyphs(&[0x100, 0xff, 0xffff]), 2);
    assert_eq!(count_glyphs(&[]), 0);
}
