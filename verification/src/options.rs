//! What the responder is configured with.

use vstd::prelude::*;
use crate::message::IpAddress;

verus! {

/// An address and port to listen on.
#[derive(Debug, Clone, Copy, PartialEq, Eq)]
pub struct Endpoint {
    pub address: IpAddress,
    pub port: u16,
}

/// The configuration of one responder.
#[derive(Debug, Clone, PartialEq, Eq)]
pub struct Options {
    /// Where to listen for datagrams.
    pub udp: Vec<Endpoint>,
    /// Where to listen for connections.
    pub tcp: Vec<Endpoint>,
    /// The base domain, as text.
    pub domain: String,
}

} // verus!
