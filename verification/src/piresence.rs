//! Presence engine: what it is told on its command line.

use vstd::prelude::*;

verus! {

/// Where the presence engine finds Home Assistant.
#[derive(Debug)]
pub struct CmdArgs {
    /// Host running Home Assistant.
    pub host: String,
    /// Port of the Home Assistant WebSocket.
    pub port: u16,
    /// Authentication token for Home Assistant.
    pub token: String,
}

} // verus!
