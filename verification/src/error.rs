//! Why a request could not be answered.

use vstd::prelude::*;
use crate::message::{MessageType, OpCode};
use crate::name::Name;

verus! {

/// `std::io::Error`, carried through as it is; nothing is claimed of it.
#[verifier::external_type_specification]
#[verifier::external_body]
pub struct ExIoError(std::io::Error);

/// The failures of request handling. Each of them ends as a server failure.
#[derive(Debug)]
pub enum Error {
    /// The request asks for an operation other than a standard query.
    InvalidOpCode(OpCode),
    /// The message is not a query.
    InvalidMessageType(MessageType),
    /// No zone of this server claims the queried name.
    InvalidZone(Name),
    /// The transport failed while the request was handled.
    Io(std::io::Error),
}

/// The mathematical value of an [`Error`]: its kind and what it carries,
/// but for the I/O failure, of which only the kind is kept.
pub enum ErrorView {
    InvalidOpCode(OpCode),
    InvalidMessageType(MessageType),
    InvalidZone(Seq<Seq<u8>>),
    Io,
}

impl View for Error {
    type V = ErrorView;

    open spec fn view(&self) -> ErrorView {
        match *self {
            Error::InvalidOpCode(op_code) => ErrorView::InvalidOpCode(op_code),
            Error::InvalidMessageType(message_type) => ErrorView::InvalidMessageType(message_type),
            Error::InvalidZone(name) => ErrorView::InvalidZone(name@),
            Error::Io(_) => ErrorView::Io,
        }
    }
}

} // verus!
