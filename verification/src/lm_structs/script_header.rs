use vstd::prelude::*;

verus! {

/// One line of a script as the game lays it out in memory: where its
/// words start, how many words it has, and how many of them are glyphs.
#[derive(Debug, Clone, Copy, PartialEq, Eq, Structural)]
pub struct ScriptSubHeader {
    pub pointer: usize,
    pub data_num: i32,
    pub font_num: i32,
}

/// A whole script: its address, the number of lines, the number of glyphs
/// over all lines, and the address of the array of line headers.
#[derive(Debug, Clone, Copy, PartialEq, Eq, Structural)]
pub struct ScriptHeader {
    pub scr_addr: usize,
    pub sub_num: i32,
    pub all_font_num: i32,
    pub data: usize,
}

} // verus!
