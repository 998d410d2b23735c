//! What the transport hands in for one request, as plain values.

use vstd::prelude::*;
use crate::name::Name;

verus! {

/// The operation a message asks for.
#[derive(Debug, Clone, Copy, PartialEq, Eq)]
pub enum OpCode {
    /// A standard query, the only operation that is answered.
    Query,
    Status,
    Notify,
    Update,
}

/// Whether a message is a query or a response.
#[derive(Debug, Clone, Copy, PartialEq, Eq)]
pub enum MessageType {
    Query,
    Response,
}

/// An IP address as one integer, the first octet in the highest byte.
#[derive(Debug, Clone, Copy, PartialEq, Eq)]
pub enum IpAddress {
    V4(u32),
    V6(u128),
}

/// One parsed request: what it asks for, and where it came from.
#[derive(Debug, Clone, PartialEq, Eq)]
pub struct Query {
    pub op_code: OpCode,
    pub message_type: MessageType,
    /// The queried name, lower-cased.
    pub name: Name,
    /// The address of the peer that sent the request.
    pub src: IpAddress,
}

} // verus!
