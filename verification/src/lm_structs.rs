pub mod items;
pub mod script_header;
