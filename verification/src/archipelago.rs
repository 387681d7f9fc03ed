pub mod api;
pub mod client;
pub mod codec;
pub mod decode;
pub mod json;
pub mod protocol;
