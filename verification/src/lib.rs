//! The core of an authoritative DNS responder that synthesises its answers.
//!
//! One configured base domain carries four zones: the domain itself and the
//! three names `myip`, `counter` and `hello` directly below it. A query is
//! validated, matched against the zones and answered by the generator of the
//! zone that claims it; every failure becomes a server-failure response.
//! The transport hands in plain values and encodes what comes back.

pub mod counter;
pub mod error;
pub mod handler;
pub mod laws;
pub mod message;
pub mod name;
pub mod options;
pub mod response;
