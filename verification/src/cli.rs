//! The commands of a command-line front end.

use vstd::prelude::*;

verus! {

/// A command line.
pub struct Cli {
    pub command: Command,
}

/// What a command line asks for.
pub enum Command {
    /// Wait for an incoming connection on a port, then chat.
    Listen { port: u16 },
    /// Connect to a peer, then chat.
    Connect { ip: String, port: u16 },
    /// Generate a new keypair, overwriting any existing one.
    Keygen,
    /// Print this node's public-key fingerprint.
    Fingerprint,
    /// Pin a peer's fingerprint for an address.
    Trust { fingerprint: String, address: String },
}

} // verus!
