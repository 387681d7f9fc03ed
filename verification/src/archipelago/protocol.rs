use crate::archipelago::api::NetworkVersion;
use vstd::prelude::*;

verus! {

/// A line of plain text that the server prints to the client.
#[derive(Debug, Clone)]
pub struct Print {
    pub text: String,
}

/// The version of the network protocol that this library was written for.
pub fn network_version() -> (version: NetworkVersion)
    ensures
        version.major == 0,
        version.minor == 5,
        version.build == 1,
        version.class@ == "Version"@,
{
    NetworkVersion { major: 0, minor: 5, build: 1, class: String::from_str("Version") }
}

} // verus!
