//! Connecting to a peer: the addresses of its host are tried one after the
//! other, and the first that answers is taken.

use crate::app;
use crate::screens::Polled;
use crate::text;
use crate::transitions;
use vstd::prelude::*;

verus! {

/// What to do next to reach a peer.
pub enum Attempt {
    /// Try the address with this number.
    Try(usize),
    /// Give up, for this reason.
    GiveUp(String),
}

/// The attempts to reach a host on a port.
pub struct Attempts {
    pub host: String,
    pub port: u16,
    /// How many addresses the host has.
    pub addresses: usize,
    /// How each address that was tried has failed.
    pub failures: Vec<String>,
}

/// What is said when every address has failed: how the last one did.
pub open spec fn connect_failure(host: Seq<char>, port: u16, failures: Seq<String>) -> Seq<char> {
    let last = if failures.len() == 0 {
        Seq::empty()
    } else {
        failures.last()@
    };
    "connect to "@ + transitions::address_of(host, port) + " failed: "@ + last
}

impl Attempts {
    /// No more addresses have failed than there are.
    pub open spec fn wf(self) -> bool {
        self.failures@.len() <= self.addresses
    }

    /// Nothing has been tried yet.
    pub fn new(host: &str, port: u16, addresses: usize) -> (res: Self)
        ensures
            res.host@ == host@,
            res.port == port,
            res.addresses == addresses,
            res.failures@ == Seq::<String>::empty(),
            res.wf(),
    {
        Attempts { host: host.to_string(), port, addresses, failures: Vec::new() }
    }

    /// What to do next: each address is tried in its turn, and after the last
    /// one there is nothing left to do.
    pub fn next(&self) -> (res: Attempt)
        requires
            self.wf(),
        ensures
            match res {
                Attempt::Try(i) => i == self.failures@.len() && i < self.addresses,
                Attempt::GiveUp(reason) => {
                    &&& self.failures@.len() == self.addresses
                    &&& reason@ == connect_failure(self.host@, self.port, self.failures@)
                },
            },
    {
        let tried: usize = self.failures.len();
        if tried < self.addresses {
            return Attempt::Try(tried);
        }
        let address = app::peer_address(self.host.as_str(), self.port);
        let start = text::join("connect to ", address.as_str());
        let start = text::join(start.as_str(), " failed: ");
        let last: &str = if tried == 0 {
            ""
        } else {
            self.failures[tried - 1].as_str()
        };
        proof {
            reveal_strlit("");
            assert(""@ =~= Seq::<char>::empty());
        }
        Attempt::GiveUp(text::join(start.as_str(), last))
    }

    /// Takes note that the address whose turn it was has failed.
    pub fn failed(&mut self, reason: String)
        requires
            old(self).failures@.len() < old(self).addresses,
        ensures
            final(self).failures@ == old(self).failures@.push(reason),
            final(self).host == old(self).host,
            final(self).port == old(self).port,
            final(self).addresses == old(self).addresses,
            final(self).wf(),
    {
        self.failures.push(reason);
    }
}

/// What is said when a host has no address.
pub fn resolve_failure(host: &str, port: u16, cause: &str) -> (res: String)
    ensures
        res@ == "failed to resolve "@ + transitions::address_of(host@, port) + ": "@ + cause@,
{
    let address = app::peer_address(host, port);
    let start = text::join("failed to resolve ", address.as_str());
    let start = text::join(start.as_str(), ": ");
    text::join(start.as_str(), cause)
}

/// What a peer that has connected is known by: its IP address alone. The port
/// that it connected from has no part in it.
pub fn accepted_peer_id(ip: &str, _port: u16) -> (res: String)
    ensures
        res@ == ip@,
{
    ip.to_string()
}

/// What it means that no peer could be accepted: nothing where none was there
/// to accept.
pub fn accept_failure(would_block: bool, message: &str) -> (res: Polled)
    ensures
        match res {
            Polled::Nothing => would_block,
            Polled::AcceptFailed(e) => !would_block && e@ == message@,
            _ => false,
        },
{
    if would_block {
        Polled::Nothing
    } else {
        Polled::AcceptFailed(message.to_string())
    }
}

} // verus!
