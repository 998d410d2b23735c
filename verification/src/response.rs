//! What the core hands back for one request: a response code and records.

use vstd::prelude::*;
use crate::name::Name;

verus! {

/// Seconds for which a client may keep a synthesised record.
pub const RECORD_TTL: u32 = 60;

/// The outcome indicator of a response.
#[derive(Debug, Clone, Copy, PartialEq, Eq)]
pub enum ResponseCode {
    NoError,
    ServFail,
}

/// The typed datum of a record.
#[derive(Debug, Clone, PartialEq, Eq)]
pub enum RecordData {
    /// An IPv4 address, the first octet in the highest byte.
    A(u32),
    /// An IPv6 address, the first octet in the highest byte.
    Aaaa(u128),
    /// One character string of a text record.
    Txt(Vec<u8>),
}

/// One resource record of an answer.
#[derive(Debug, Clone, PartialEq, Eq)]
pub struct Record {
    pub name: Name,
    pub ttl: u32,
    pub data: RecordData,
}

/// A complete response, ready to be encoded.
#[derive(Debug, Clone, PartialEq, Eq)]
pub struct Response {
    pub code: ResponseCode,
    pub records: Vec<Record>,
}

/// The mathematical value of a [`RecordData`].
pub enum RecordDataView {
    A(u32),
    Aaaa(u128),
    Txt(Seq<u8>),
}

/// The mathematical value of a [`Record`].
pub struct RecordView {
    pub name: Seq<Seq<u8>>,
    pub ttl: u32,
    pub data: RecordDataView,
}

/// The mathematical value of a [`Response`].
pub struct ResponseView {
    pub code: ResponseCode,
    pub records: Seq<RecordView>,
}

impl View for RecordData {
    type V = RecordDataView;

    open spec fn view(&self) -> RecordDataView {
        match *self {
            RecordData::A(address) => RecordDataView::A(address),
            RecordData::Aaaa(address) => RecordDataView::Aaaa(address),
            RecordData::Txt(text) => RecordDataView::Txt(text@),
        }
    }
}

impl View for Record {
    type V = RecordView;

    open spec fn view(&self) -> RecordView {
        RecordView { name: self.name@, ttl: self.ttl, data: self.data@ }
    }
}

impl View for Response {
    type V = ResponseView;

    open spec fn view(&self) -> ResponseView {
        ResponseView { code: self.code, records: self.records@.map_values(|record: Record| record@) }
    }
}

impl ResponseView {
    /// A response carries records only together with the code for success.
    pub open spec fn well_formed(self) -> bool {
        self.code != ResponseCode::NoError ==> self.records.len() == 0
    }
}

/// The response that carries `records` and reports success.
pub open spec fn success(records: Seq<RecordView>) -> ResponseView {
    ResponseView { code: ResponseCode::NoError, records }
}

/// The response that reports a server failure and carries nothing.
pub open spec fn server_failure() -> ResponseView {
    ResponseView { code: ResponseCode::ServFail, records: Seq::empty() }
}

/// The single record that answers `name` with `data`.
pub open spec fn one_record(name: Seq<Seq<u8>>, data: RecordDataView) -> Seq<RecordView> {
    seq![RecordView { name, ttl: RECORD_TTL, data }]
}

impl Response {
    /// The successful response without records.
    pub fn empty() -> (response: Response)
        ensures
            response@ == success(Seq::empty()),
    {
        let response = Response { code: ResponseCode::NoError, records: Vec::new() };
        assert(response@.records =~= Seq::empty());
        response
    }

    /// The successful response whose one record answers `name` with `data`.
    pub fn single(name: &Name, data: RecordData) -> (response: Response)
        ensures
            response@ == success(one_record(name@, data@)),
    {
        let mut records: Vec<Record> = Vec::new();
        records.push(Record { name: name.clone(), ttl: RECORD_TTL, data });
        let response = Response { code: ResponseCode::NoError, records };
        assert(response@.records =~= one_record(name@, data@));
        response
    }

    /// The response that reports a server failure and carries nothing.
    pub fn server_failure() -> (response: Response)
        ensures
            response@ == server_failure(),
    {
        let response = Response { code: ResponseCode::ServFail, records: Vec::new() };
        assert(response@.records =~= Seq::empty());
        response
    }
}

} // verus!
