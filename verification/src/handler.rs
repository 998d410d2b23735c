//! Request handling: validation, zone matching, the four answer generators,
//! and the turning of every failure into a server-failure response.

use std::sync::atomic::AtomicU64;
use std::sync::atomic::Ordering;
use std::sync::Arc;
use vstd::prelude::*;
use crate::counter::{count_after, decimal, next_count, render_decimal};
use crate::error::{Error, ErrorView};
use crate::message::{IpAddress, MessageType, OpCode, Query};
use crate::name::{accepted_name, admitted_text, child_of, Name};
use crate::options::Options;
use crate::response::{one_record, server_failure, success, RecordData, RecordDataView, Response, ResponseView};

verus! {

/// The zone that claims a name, and with it the generator that answers.
#[derive(Debug, Clone, Copy, PartialEq, Eq)]
pub enum ZoneKind {
    /// The base domain, for every name under it that no other zone claims.
    Default,
    MyIp,
    Counter,
    Hello,
}

/// The label `myip`.
pub open spec fn myip_label() -> Seq<u8> {
    seq![109u8, 121u8, 105u8, 112u8]
}

/// The label `counter`.
pub open spec fn counter_label() -> Seq<u8> {
    seq![99u8, 111u8, 117u8, 110u8, 116u8, 101u8, 114u8]
}

/// The label `hello`.
pub open spec fn hello_label() -> Seq<u8> {
    seq![104u8, 101u8, 108u8, 108u8, 111u8]
}

/// The text `hello, world`, which the hello zone answers with.
pub open spec fn greeting() -> Seq<u8> {
    seq![104u8, 101u8, 108u8, 108u8, 111u8, 44u8, 32u8, 119u8, 111u8, 114u8, 108u8, 100u8]
}

fn myip_bytes() -> (label: Vec<u8>)
    ensures
        label@ == myip_label(),
{
    let mut label: Vec<u8> = Vec::new();
    label.push(109);
    label.push(121);
    label.push(105);
    label.push(112);
    assert(label@ =~= myip_label());
    label
}

fn counter_bytes() -> (label: Vec<u8>)
    ensures
        label@ == counter_label(),
{
    let mut label: Vec<u8> = Vec::new();
    label.push(99);
    label.push(111);
    label.push(117);
    label.push(110);
    label.push(116);
    label.push(101);
    label.push(114);
    assert(label@ =~= counter_label());
    label
}

fn hello_bytes() -> (label: Vec<u8>)
    ensures
        label@ == hello_label(),
{
    let mut label: Vec<u8> = Vec::new();
    label.push(104);
    label.push(101);
    label.push(108);
    label.push(108);
    label.push(111);
    assert(label@ =~= hello_label());
    label
}

fn greeting_bytes() -> (text: Vec<u8>)
    ensures
        text@ == greeting(),
{
    let mut text: Vec<u8> = Vec::new();
    text.push(104);
    text.push(101);
    text.push(108);
    text.push(108);
    text.push(111);
    text.push(44);
    text.push(32);
    text.push(119);
    text.push(111);
    text.push(114);
    text.push(108);
    text.push(100);
    assert(text@ =~= greeting());
    text
}

/// The address record datum for `address`: `A` for IPv4, `AAAA` for IPv6.
pub open spec fn address_data(address: IpAddress) -> RecordDataView {
    match address {
        IpAddress::V4(bits) => RecordDataView::A(bits),
        IpAddress::V6(bits) => RecordDataView::Aaaa(bits),
    }
}

/// What validation objects to in `query`, if anything: first an operation
/// other than a standard query, then a message that is not a query.
pub open spec fn validation(query: Query) -> Option<ErrorView> {
    if query.op_code != OpCode::Query {
        Some(ErrorView::InvalidOpCode(query.op_code))
    } else if query.message_type != MessageType::Query {
        Some(ErrorView::InvalidMessageType(query.message_type))
    } else {
        None
    }
}

/// The answer of the generator of `kind` to `query`, where the shared
/// counter held `previous` when the request reached it. Only the counter
/// zone reads `previous`.
pub open spec fn answer(kind: ZoneKind, query: Query, previous: u64) -> ResponseView {
    match kind {
        ZoneKind::Default => success(Seq::empty()),
        ZoneKind::MyIp => success(one_record(query.name@, address_data(query.src))),
        ZoneKind::Counter => success(
            one_record(query.name@, RecordDataView::Txt(decimal(count_after(previous) as nat))),
        ),
        ZoneKind::Hello => success(one_record(query.name@, RecordDataView::Txt(greeting()))),
    }
}

/// The mathematical value of what request handling returns.
pub open spec fn result_view(result: Result<Response, Error>) -> Result<ResponseView, ErrorView> {
    match result {
        Ok(response) => Ok(response@),
        Err(error) => Err(error@),
    }
}

/// The response that stands for `result`: the response itself, or a server
/// failure in place of any error.
pub open spec fn response_of(result: Result<ResponseView, ErrorView>) -> ResponseView {
    match result {
        Ok(response) => response,
        Err(_) => server_failure(),
    }
}

/// The request handler: the shared counter and the four zones.
#[derive(Debug, Clone)]
pub struct Handler {
    /// The counter, shared by all copies of this handler.
    pub counter: Arc<AtomicU64>,
    pub root_zone: Name,
    pub counter_zone: Name,
    pub myip_zone: Name,
    pub hello_zone: Name,
}

impl Handler {
    /// The three specific zones lie directly below the root zone, under
    /// their labels.
    pub open spec fn well_formed(&self) -> bool {
        &&& self.myip_zone@ == child_of(myip_label(), self.root_zone@)
        &&& self.counter_zone@ == child_of(counter_label(), self.root_zone@)
        &&& self.hello_zone@ == child_of(hello_label(), self.root_zone@)
    }

    /// The zone that claims `name`, if any: the specific zones are asked
    /// before the root zone.
    pub open spec fn zone_for(&self, name: Seq<Seq<u8>>) -> Option<ZoneKind> {
        if self.myip_zone@.is_suffix_of(name) {
            Some(ZoneKind::MyIp)
        } else if self.counter_zone@.is_suffix_of(name) {
            Some(ZoneKind::Counter)
        } else if self.hello_zone@.is_suffix_of(name) {
            Some(ZoneKind::Hello)
        } else if self.root_zone@.is_suffix_of(name) {
            Some(ZoneKind::Default)
        } else {
            None
        }
    }

    /// The generator that `query` reaches, or the error that stops it first.
    pub open spec fn route(&self, query: Query) -> Result<ZoneKind, ErrorView> {
        match validation(query) {
            Some(error) => Err(error),
            None => match self.zone_for(query.name@) {
                Some(kind) => Ok(kind),
                None => Err(ErrorView::InvalidZone(query.name@)),
            },
        }
    }

    /// Whether handling `query` adds one to the shared counter.
    pub open spec fn counts(&self, query: Query) -> bool {
        self.route(query) == Ok::<ZoneKind, ErrorView>(ZoneKind::Counter)
    }

    /// What handling `query` results in, where the shared counter held
    /// `previous` when the request reached it.
    pub open spec fn outcome(&self, query: Query, previous: u64) -> Result<ResponseView, ErrorView> {
        match self.route(query) {
            Ok(kind) => Ok(answer(kind, query, previous)),
            Err(error) => Err(error),
        }
    }

    /// The response to `query`, where the shared counter held `previous`
    /// when the request reached it.
    pub open spec fn reply(&self, query: Query, previous: u64) -> ResponseView {
        response_of(self.outcome(query, previous))
    }

    /// The value of the shared counter after `query` was handled, where it
    /// held `previous` before.
    pub open spec fn counter_after(&self, query: Query, previous: u64) -> u64 {
        if self.counts(query) {
            count_after(previous)
        } else {
            previous
        }
    }

    /// Makes the handler for the base domain `root_zone`, with a counter of
    /// its own that starts at zero: the three specific zones are put
    /// directly below the base domain.
    pub fn for_root(root_zone: Name) -> (made: Handler)
        ensures
            made.root_zone@ == root_zone@,
            made.well_formed(),
    {
        let myip_zone = root_zone.child(&myip_bytes());
        let counter_zone = root_zone.child(&counter_bytes());
        let hello_zone = root_zone.child(&hello_bytes());
        let counter = Arc::new(AtomicU64::new(0));
        Handler { counter, root_zone, counter_zone, myip_zone, hello_zone }
    }

    /// Makes the handler for the base domain that `options` names, with a
    /// counter of its own that starts at zero. There is none where the
    /// domain is not accepted as a name: where its text is not admitted, or
    /// where trust-dns rejects it.
    pub fn from_options(options: &Options) -> (handler: Option<Handler>)
        ensures
            !admitted_text(options.domain@) ==> handler is None,
            match accepted_name(options.domain@) {
                Some(labels) => handler matches Some(made) && made.root_zone@ == labels
                    && made.well_formed(),
                None => handler is None,
            },
    {
        match Name::parse(options.domain.as_str()) {
            Some(root_zone) => Some(Self::for_root(root_zone)),
            None => None,
        }
    }

    /// Checks that `query` is a standard query in a query message.
    pub fn validate(query: &Query) -> (result: Result<(), Error>)
        ensures
            match validation(*query) {
                None => result is Ok,
                Some(error) => result matches Err(found) && found@ == error,
            },
    {
        match query.op_code {
            OpCode::Query => {},
            other => {
                return Err(Error::InvalidOpCode(other));
            },
        }
        match query.message_type {
            MessageType::Query => Ok(()),
            other => Err(Error::InvalidMessageType(other)),
        }
    }

    /// Finds the zone that claims `name`.
    pub fn match_zone(&self, name: &Name) -> (result: Result<ZoneKind, Error>)
        ensures
            match self.zone_for(name@) {
                Some(kind) => result matches Ok(found) && found == kind,
                None => result matches Err(error) && error@ == ErrorView::InvalidZone(name@),
            },
    {
        if self.myip_zone.zone_of(name) {
            Ok(ZoneKind::MyIp)
        } else if self.counter_zone.zone_of(name) {
            Ok(ZoneKind::Counter)
        } else if self.hello_zone.zone_of(name) {
            Ok(ZoneKind::Hello)
        } else if self.root_zone.zone_of(name) {
            Ok(ZoneKind::Default)
        } else {
            Err(Error::InvalidZone(name.clone()))
        }
    }

    /// Answers a name that only the root zone claims: success, no records.
    pub fn do_handle_request_default(&self, query: &Query) -> (response: Response)
        ensures
            response@ == answer(ZoneKind::Default, *query, 0),
    {
        Response::empty()
    }

    /// Answers with the address that the request came from.
    pub fn do_handle_request_myip(&self, query: &Query) -> (response: Response)
        ensures
            response@ == answer(ZoneKind::MyIp, *query, 0),
    {
        let data = match query.src {
            IpAddress::V4(bits) => RecordData::A(bits),
            IpAddress::V6(bits) => RecordData::Aaaa(bits),
        };
        Response::single(&query.name, data)
    }

    /// Answers with the fixed greeting.
    pub fn do_handle_request_hello(&self, query: &Query) -> (response: Response)
        ensures
            response@ == answer(ZoneKind::Hello, *query, 0),
    {
        Response::single(&query.name, RecordData::Txt(greeting_bytes()))
    }

    /// The answer of the counter zone for a request that found `previous`
    /// in the shared counter: the value it left there, in decimal.
    pub fn counter_answer(query: &Query, previous: u64) -> (response: Response)
        ensures
            response@ == answer(ZoneKind::Counter, *query, previous),
    {
        let text = render_decimal(next_count(previous));
        Response::single(&query.name, RecordData::Txt(text))
    }

    /// Adds one to the shared counter, in one atomic step, and answers with
    /// the value that this left there. What the counter held before depends
    /// on the requests that came earlier.
    pub fn do_handle_request_counter(&self, query: &Query) -> (response: Response)
        ensures
            exists|previous: u64| response@ == answer(ZoneKind::Counter, *query, previous),
    {
        let previous = self.counter.fetch_add(1, Ordering::SeqCst);
        Self::counter_answer(query, previous)
    }

    /// Lets the generator of `kind` answer `query`. Only the counter zone's
    /// generator touches the shared counter.
    pub fn dispatch(&self, kind: ZoneKind, query: &Query) -> (response: Response)
        ensures
            exists|previous: u64| response@ == answer(kind, *query, previous),
            kind != ZoneKind::Counter ==> response@ == answer(kind, *query, 0),
    {
        match kind {
            ZoneKind::MyIp => {
                let response = self.do_handle_request_myip(query);
                assert(response@ == answer(kind, *query, 0));
                response
            },
            ZoneKind::Counter => self.do_handle_request_counter(query),
            ZoneKind::Hello => {
                let response = self.do_handle_request_hello(query);
                assert(response@ == answer(kind, *query, 0));
                response
            },
            ZoneKind::Default => {
                let response = self.do_handle_request_default(query);
                assert(response@ == answer(kind, *query, 0));
                response
            },
        }
    }

    /// Validates `query`, finds its zone and lets that zone's generator
    /// answer. The first failure ends the handling, so a request that is
    /// rejected never reaches the shared counter.
    pub fn do_handle_request(&self, query: &Query) -> (result: Result<Response, Error>)
        ensures
            exists|previous: u64| result_view(result) == self.outcome(*query, previous),
            !self.counts(*query) ==> result_view(result) == self.outcome(*query, 0),
    {
        match Self::validate(query) {
            Ok(()) => {},
            Err(error) => {
                assert(result_view(Err(error)) == self.outcome(*query, 0));
                return Err(error);
            },
        }
        match self.match_zone(&query.name) {
            Ok(kind) => {
                let response = self.dispatch(kind, query);
                let ghost previous = choose|previous: u64|
                    response@ == answer(kind, *query, previous);
                assert(result_view(Ok(response)) == self.outcome(*query, previous));
                Ok(response)
            },
            Err(error) => {
                assert(result_view(Err(error)) == self.outcome(*query, 0));
                Err(error)
            },
        }
    }

    /// Turns what request handling returned into the response to send: any
    /// error becomes a server failure without records.
    pub fn into_response(result: Result<Response, Error>) -> (response: Response)
        ensures
            response@ == response_of(result_view(result)),
    {
        match result {
            Ok(response) => response,
            Err(_) => Response::server_failure(),
        }
    }

    /// Handles one request and always has a response for it.
    pub fn handle_request(&self, query: &Query) -> (response: Response)
        ensures
            exists|previous: u64| response@ == self.reply(*query, previous),
            !self.counts(*query) ==> response@ == self.reply(*query, 0),
            response@.well_formed(),
    {
        let result = self.do_handle_request(query);
        let ghost previous = choose|previous: u64|
            result_view(result) == self.outcome(*query, previous);
        let response = Self::into_response(result);
        assert(response@ == self.reply(*query, previous));
        response
    }
}

} // verus!
