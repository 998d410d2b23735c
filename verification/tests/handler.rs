use std::sync::atomic::Ordering;

use dnsfun::error::Error;
use dnsfun::handler::{Handler, ZoneKind};
use dnsfun::message::{IpAddress, MessageType, OpCode, Query};
use dnsfun::name::Name;
use dnsfun::options::{Endpoint, Options};
use dnsfun::response::{Record, RecordData, Response, ResponseCode, RECORD_TTL};

fn name(labels: &[&str]) -> Name {
    Name { labels: labels.iter().map(|label| label.as_bytes().to_vec()).collect() }
}

fn options(domain: &str) -> Options {
    Options {
        udp: vec![Endpoint { address: IpAddress::V4(0), port: 1053 }],
        tcp: Vec::new(),
        domain: domain.to_string(),
    }
}

fn handler() -> Handler {
    Handler::from_options(&options("dnsfun.dev")).unwrap()
}

fn query(labels: &[&str]) -> Query {
    Query {
        op_code: OpCode::Query,
        message_type: MessageType::Query,
        name: name(labels),
        src: IpAddress::V4(0xc000_0207),
    }
}

fn text_record(labels: &[&str], text: &[u8]) -> Record {
    Record { name: name(labels), ttl: RECORD_TTL, data: RecordData::Txt(text.to_vec()) }
}

fn success(records: Vec<Record>) -> Response {
    Response { code: ResponseCode::NoError, records }
}

fn failure() -> Response {
    Response { code: ResponseCode::ServFail, records: Vec::new() }
}

#[test]
fn from_options_derives_the_four_zones() {
    let handler = handler();
    assert_eq!(handler.root_zone, name(&["dnsfun", "dev"]));
    assert_eq!(handler.myip_zone, name(&["myip", "dnsfun", "dev"]));
    assert_eq!(handler.counter_zone, name(&["counter", "dnsfun", "dev"]));
    assert_eq!(handler.hello_zone, name(&["hello", "dnsfun", "dev"]));
    assert_eq!(handler.counter.load(Ordering::SeqCst), 0);
}

#[test]
fn from_options_splits_and_lower_cases_the_domain() {
    let handler = Handler::from_options(&options("DNSFun.Example.ORG")).unwrap();
    assert_eq!(handler.root_zone, name(&["dnsfun", "example", "org"]));
    assert_eq!(handler.hello_zone, name(&["hello", "dnsfun", "example", "org"]));
}

#[test]
fn from_options_takes_a_fully_qualified_domain() {
    let handler = Handler::from_options(&options("dnsfun.dev.")).unwrap();
    assert_eq!(handler.root_zone, name(&["dnsfun", "dev"]));
}

#[test]
fn from_options_takes_the_root_as_base() {
    let handler = Handler::from_options(&options(".")).unwrap();
    assert_eq!(handler.root_zone, Name::root());
    assert_eq!(handler.myip_zone, name(&["myip"]));
    assert_eq!(handler.handle_request(&query(&["example", "com"])), success(Vec::new()));
}

#[test]
fn from_options_rejects_what_is_no_name() {
    assert!(Handler::from_options(&options("dns fun.dev")).is_none());
    assert!(Handler::from_options(&options("dnsfun..dev")).is_none());
}

#[test]
fn from_options_rejects_text_over_the_bound() {
    let padded = format!("dnsfun{}.dev", "\u{ad}".repeat(1100));
    assert!(Handler::from_options(&options(&padded)).is_none());
    let long_label = format!("{}\u{4e00}", "a".repeat(216479));
    assert!(Handler::from_options(&options(&long_label)).is_none());
    assert!(Handler::from_options(&options(&"a.".repeat(513))).is_none());
    let mapped_long = format!("{}\u{10f45e}", "\u{fdfa}".repeat(215));
    assert!(Handler::from_options(&options(&mapped_long)).is_none());
    let heavy = format!("dnsfun{}.dev", "\u{ad}".repeat(214));
    assert!(Handler::from_options(&options(&heavy)).is_none());
}

#[test]
fn from_options_takes_text_within_the_bound() {
    let padded = format!("dnsfun{}.dev", "\u{ad}".repeat(100));
    let handler = Handler::from_options(&options(&padded)).unwrap();
    assert_eq!(handler.root_zone, name(&["dnsfun", "dev"]));
}

#[test]
fn for_root_puts_the_three_zones_below_the_base() {
    let handler = Handler::for_root(name(&["example", "org"]));
    assert_eq!(handler.root_zone, name(&["example", "org"]));
    assert_eq!(handler.myip_zone, name(&["myip", "example", "org"]));
    assert_eq!(handler.counter_zone, name(&["counter", "example", "org"]));
    assert_eq!(handler.hello_zone, name(&["hello", "example", "org"]));
    assert_eq!(handler.counter.load(Ordering::SeqCst), 0);
}

#[test]
fn for_root_takes_any_labels() {
    let handler = Handler::for_root(Name::root());
    assert_eq!(handler.root_zone, Name::root());
    assert_eq!(handler.myip_zone, name(&["myip"]));
    assert_eq!(handler.counter_zone, name(&["counter"]));
    assert_eq!(handler.hello_zone, name(&["hello"]));
    let handler = Handler::for_root(name(&["Mixed Case", ""]));
    assert_eq!(handler.hello_zone, name(&["hello", "Mixed Case", ""]));
    assert_eq!(
        handler.handle_request(&query(&["counter", "Mixed Case", ""])),
        success(vec![text_record(&["counter", "Mixed Case", ""], b"1")])
    );
}

#[test]
fn for_root_gives_each_handler_its_own_counter() {
    let one = Handler::for_root(name(&["dnsfun", "dev"]));
    let other = Handler::for_root(name(&["dnsfun", "dev"]));
    one.handle_request(&query(&["counter", "dnsfun", "dev"]));
    assert_eq!(one.counter.load(Ordering::SeqCst), 1);
    assert_eq!(other.counter.load(Ordering::SeqCst), 0);
}

#[test]
fn validate_accepts_a_standard_query() {
    assert!(matches!(Handler::validate(&query(&["dnsfun", "dev"])), Ok(())));
    assert!(matches!(Handler::validate(&query(&["example", "com"])), Ok(())));
}

#[test]
fn validate_rejects_other_operations() {
    for op_code in [OpCode::Status, OpCode::Notify, OpCode::Update] {
        let mut request = query(&["hello", "dnsfun", "dev"]);
        request.op_code = op_code;
        match Handler::validate(&request) {
            Err(Error::InvalidOpCode(found)) => assert_eq!(found, op_code),
            other => panic!("unexpected {:?}", other),
        }
    }
}

#[test]
fn validate_rejects_a_response() {
    let mut request = query(&["hello", "dnsfun", "dev"]);
    request.message_type = MessageType::Response;
    assert!(matches!(
        Handler::validate(&request),
        Err(Error::InvalidMessageType(MessageType::Response))
    ));
}

#[test]
fn validate_looks_at_the_operation_first() {
    let mut request = query(&["hello", "dnsfun", "dev"]);
    request.op_code = OpCode::Update;
    request.message_type = MessageType::Response;
    assert!(matches!(Handler::validate(&request), Err(Error::InvalidOpCode(OpCode::Update))));
}

#[test]
fn match_zone_finds_each_zone() {
    let handler = handler();
    assert!(matches!(handler.match_zone(&name(&["myip", "dnsfun", "dev"])), Ok(ZoneKind::MyIp)));
    assert!(matches!(
        handler.match_zone(&name(&["counter", "dnsfun", "dev"])),
        Ok(ZoneKind::Counter)
    ));
    assert!(matches!(handler.match_zone(&name(&["hello", "dnsfun", "dev"])), Ok(ZoneKind::Hello)));
    assert!(matches!(handler.match_zone(&name(&["dnsfun", "dev"])), Ok(ZoneKind::Default)));
    assert!(matches!(handler.match_zone(&name(&["foo", "dnsfun", "dev"])), Ok(ZoneKind::Default)));
}

#[test]
fn match_zone_prefers_the_specific_zone_to_the_root() {
    let handler = handler();
    assert!(matches!(
        handler.match_zone(&name(&["a", "b", "counter", "dnsfun", "dev"])),
        Ok(ZoneKind::Counter)
    ));
    assert!(matches!(
        handler.match_zone(&name(&["counter", "myip", "dnsfun", "dev"])),
        Ok(ZoneKind::MyIp)
    ));
    assert!(matches!(
        handler.match_zone(&name(&["myip", "foo", "dnsfun", "dev"])),
        Ok(ZoneKind::Default)
    ));
    assert!(matches!(
        handler.match_zone(&name(&["xmyip", "dnsfun", "dev"])),
        Ok(ZoneKind::Default)
    ));
}

#[test]
fn match_zone_rejects_foreign_names() {
    let handler = handler();
    for labels in [&["example", "com"][..], &["dev"][..], &[][..], &["myip", "dnsfun", "com"][..]] {
        match handler.match_zone(&name(labels)) {
            Err(Error::InvalidZone(found)) => assert_eq!(found, name(labels)),
            other => panic!("unexpected {:?}", other),
        }
    }
}

#[test]
fn myip_answers_with_the_ipv4_source() {
    let handler = handler();
    let mut request = query(&["myip", "dnsfun", "dev"]);
    request.src = IpAddress::V4(0x7f00_0001);
    let expected = success(vec![Record {
        name: name(&["myip", "dnsfun", "dev"]),
        ttl: 60,
        data: RecordData::A(0x7f00_0001),
    }]);
    assert_eq!(handler.handle_request(&request), expected);
    assert_eq!(handler.do_handle_request_myip(&request), expected);
}

#[test]
fn myip_answers_with_the_ipv6_source() {
    let handler = handler();
    let mut request = query(&["myip", "dnsfun", "dev"]);
    request.src = IpAddress::V6(0x2001_0db8_0000_0000_0000_0000_0000_0001);
    let response = handler.handle_request(&request);
    assert_eq!(response.code, ResponseCode::NoError);
    assert_eq!(response.records.len(), 1);
    assert_eq!(
        response.records[0].data,
        RecordData::Aaaa(0x2001_0db8_0000_0000_0000_0000_0000_0001)
    );
    assert_eq!(response.records[0].name, request.name);
}

#[test]
fn myip_answers_names_below_its_zone() {
    let handler = handler();
    let response = handler.handle_request(&query(&["what", "is", "myip", "dnsfun", "dev"]));
    assert_eq!(
        response,
        success(vec![Record {
            name: name(&["what", "is", "myip", "dnsfun", "dev"]),
            ttl: RECORD_TTL,
            data: RecordData::A(0xc000_0207),
        }])
    );
}

#[test]
fn myip_does_not_touch_the_counter() {
    let handler = handler();
    handler.handle_request(&query(&["myip", "dnsfun", "dev"]));
    handler.handle_request(&query(&["hello", "dnsfun", "dev"]));
    handler.handle_request(&query(&["dnsfun", "dev"]));
    handler.handle_request(&query(&["example", "com"]));
    assert_eq!(handler.counter.load(Ordering::SeqCst), 0);
}

#[test]
fn hello_answers_with_the_greeting() {
    let handler = handler();
    let expected = success(vec![text_record(&["hello", "dnsfun", "dev"], b"hello, world")]);
    assert_eq!(handler.handle_request(&query(&["hello", "dnsfun", "dev"])), expected);
    assert_eq!(handler.do_handle_request_hello(&query(&["hello", "dnsfun", "dev"])), expected);
}

#[test]
fn hello_answers_the_same_every_time() {
    let handler = handler();
    let first = handler.handle_request(&query(&["hello", "dnsfun", "dev"]));
    handler.handle_request(&query(&["counter", "dnsfun", "dev"]));
    let mut request = query(&["hello", "dnsfun", "dev"]);
    request.src = IpAddress::V6(1);
    let second = handler.handle_request(&request);
    let other = Handler::from_options(&options("example.org")).unwrap();
    let third = other.handle_request(&query(&["hello", "example", "org"]));
    assert_eq!(first, second);
    assert_eq!(first.records[0].data, third.records[0].data);
    assert_eq!(first.records[0].data, RecordData::Txt(b"hello, world".to_vec()));
}

#[test]
fn counter_counts_up_from_one() {
    let handler = handler();
    let request = query(&["counter", "dnsfun", "dev"]);
    assert_eq!(
        handler.handle_request(&request),
        success(vec![text_record(&["counter", "dnsfun", "dev"], b"1")])
    );
    assert_eq!(
        handler.handle_request(&request),
        success(vec![text_record(&["counter", "dnsfun", "dev"], b"2")])
    );
    assert_eq!(
        handler.handle_request(&request),
        success(vec![text_record(&["counter", "dnsfun", "dev"], b"3")])
    );
    assert_eq!(handler.counter.load(Ordering::SeqCst), 3);
}

#[test]
fn counter_counts_without_gaps_between_other_requests() {
    let handler = handler();
    let mut invalid = query(&["counter", "dnsfun", "dev"]);
    invalid.op_code = OpCode::Update;
    let mut expected: u64 = 0;
    for round in 0..50 {
        handler.handle_request(&query(&["myip", "dnsfun", "dev"]));
        if round % 3 == 0 {
            handler.handle_request(&query(&["example", "com"]));
            handler.handle_request(&invalid);
        }
        let response = handler.handle_request(&query(&["counter", "dnsfun", "dev"]));
        expected += 1;
        assert_eq!(
            response.records[0].data,
            RecordData::Txt(expected.to_string().into_bytes())
        );
        handler.handle_request(&query(&["hello", "dnsfun", "dev"]));
    }
    assert_eq!(handler.counter.load(Ordering::SeqCst), 50);
}

#[test]
fn counter_is_shared_by_all_callers() {
    let first = handler();
    let callers = [first.clone(), first.clone(), first.clone(), first.clone()];
    let request = query(&["counter", "dnsfun", "dev"]);
    let mut seen: Vec<Vec<u8>> = Vec::new();
    for round in 0..25 {
        for turn in 0..callers.len() {
            let caller = &callers[(turn + round) % callers.len()];
            let response = caller.handle_request(&request);
            assert_eq!(response.records.len(), 1);
            match &response.records[0].data {
                RecordData::Txt(text) => seen.push(text.clone()),
                other => panic!("unexpected {:?}", other),
            }
        }
    }
    let expected: Vec<Vec<u8>> = (1..=100u64).map(|value| value.to_string().into_bytes()).collect();
    assert_eq!(seen, expected);
    assert_eq!(first.counter.load(Ordering::SeqCst), 100);
}

#[test]
fn counters_of_separate_handlers_are_separate() {
    let one = handler();
    let other = handler();
    one.handle_request(&query(&["counter", "dnsfun", "dev"]));
    one.handle_request(&query(&["counter", "dnsfun", "dev"]));
    assert_eq!(
        other.handle_request(&query(&["counter", "dnsfun", "dev"])),
        success(vec![text_record(&["counter", "dnsfun", "dev"], b"1")])
    );
}

#[test]
fn counter_answer_reports_the_value_after_the_one_found() {
    let request = query(&["counter", "dnsfun", "dev"]);
    assert_eq!(
        Handler::counter_answer(&request, 41),
        success(vec![text_record(&["counter", "dnsfun", "dev"], b"42")])
    );
    assert_eq!(
        Handler::counter_answer(&request, 0),
        success(vec![text_record(&["counter", "dnsfun", "dev"], b"1")])
    );
    assert_eq!(
        Handler::counter_answer(&request, u64::MAX),
        success(vec![text_record(&["counter", "dnsfun", "dev"], b"0")])
    );
}

#[test]
fn counter_wraps_after_the_largest_value() {
    let handler = handler();
    handler.counter.store(u64::MAX - 1, Ordering::SeqCst);
    let request = query(&["counter", "dnsfun", "dev"]);
    assert_eq!(
        handler.handle_request(&request).records[0].data,
        RecordData::Txt(b"18446744073709551615".to_vec())
    );
    assert_eq!(handler.handle_request(&request).records[0].data, RecordData::Txt(b"0".to_vec()));
    assert_eq!(handler.counter.load(Ordering::SeqCst), 0);
    assert_eq!(handler.handle_request(&request).records[0].data, RecordData::Txt(b"1".to_vec()));
}

#[test]
fn foreign_name_is_a_server_failure() {
    let handler = handler();
    assert_eq!(handler.handle_request(&query(&["example", "com"])), failure());
    assert_eq!(handler.handle_request(&query(&["dev"])), failure());
    assert_eq!(handler.handle_request(&query(&["hello", "dnsfun", "org"])), failure());
    match handler.do_handle_request(&query(&["example", "com"])) {
        Err(Error::InvalidZone(found)) => assert_eq!(found, name(&["example", "com"])),
        other => panic!("unexpected {:?}", other),
    }
}

#[test]
fn base_domain_answers_quietly() {
    let handler = handler();
    assert_eq!(handler.handle_request(&query(&["dnsfun", "dev"])), success(Vec::new()));
    assert_eq!(handler.do_handle_request_default(&query(&["dnsfun", "dev"])), success(Vec::new()));
}

#[test]
fn unclaimed_subdomain_answers_quietly() {
    let handler = handler();
    assert_eq!(handler.handle_request(&query(&["foo", "dnsfun", "dev"])), success(Vec::new()));
    assert_eq!(
        handler.handle_request(&query(&["a", "b", "c", "dnsfun", "dev"])),
        success(Vec::new())
    );
}

#[test]
fn other_operations_are_a_server_failure_whatever_the_name() {
    let handler = handler();
    let names: [&[&str]; 6] = [
        &["myip", "dnsfun", "dev"],
        &["counter", "dnsfun", "dev"],
        &["hello", "dnsfun", "dev"],
        &["dnsfun", "dev"],
        &["foo", "dnsfun", "dev"],
        &["example", "com"],
    ];
    for labels in names {
        for op_code in [OpCode::Status, OpCode::Notify, OpCode::Update] {
            let mut request = query(labels);
            request.op_code = op_code;
            assert_eq!(handler.handle_request(&request), failure());
            match handler.do_handle_request(&request) {
                Err(Error::InvalidOpCode(found)) => assert_eq!(found, op_code),
                other => panic!("unexpected {:?}", other),
            }
        }
    }
    assert_eq!(handler.counter.load(Ordering::SeqCst), 0);
}

#[test]
fn a_response_message_is_a_server_failure() {
    let handler = handler();
    let mut request = query(&["counter", "dnsfun", "dev"]);
    request.message_type = MessageType::Response;
    assert_eq!(handler.handle_request(&request), failure());
    assert!(matches!(
        handler.do_handle_request(&request),
        Err(Error::InvalidMessageType(MessageType::Response))
    ));
    assert_eq!(handler.counter.load(Ordering::SeqCst), 0);
}

#[test]
fn a_failure_does_not_undo_earlier_counting() {
    let handler = handler();
    handler.handle_request(&query(&["counter", "dnsfun", "dev"]));
    assert_eq!(handler.handle_request(&query(&["example", "com"])), failure());
    assert_eq!(
        handler.handle_request(&query(&["counter", "dnsfun", "dev"])),
        success(vec![text_record(&["counter", "dnsfun", "dev"], b"2")])
    );
}

#[test]
fn into_response_keeps_a_success() {
    let response = success(vec![text_record(&["hello", "dnsfun", "dev"], b"hello, world")]);
    assert_eq!(Handler::into_response(Ok(response.clone())), response);
    assert_eq!(Handler::into_response(Ok(success(Vec::new()))), success(Vec::new()));
}

#[test]
fn into_response_turns_every_error_into_a_server_failure() {
    let errors = vec![
        Error::InvalidOpCode(OpCode::Notify),
        Error::InvalidMessageType(MessageType::Response),
        Error::InvalidZone(name(&["example", "com"])),
        Error::Io(std::io::Error::new(std::io::ErrorKind::BrokenPipe, "peer went away")),
    ];
    for error in errors {
        assert_eq!(Handler::into_response(Err(error)), failure());
    }
}

#[test]
fn response_builders_build_what_they_say() {
    assert_eq!(Response::empty(), success(Vec::new()));
    assert_eq!(Response::server_failure(), failure());
    assert_eq!(
        Response::single(&name(&["a", "dev"]), RecordData::A(1)),
        success(vec![Record { name: name(&["a", "dev"]), ttl: 60, data: RecordData::A(1) }])
    );
}

#[test]
fn dispatch_calls_the_generator_of_the_zone() {
    let handler = handler();
    let request = query(&["anything", "dnsfun", "dev"]);
    assert_eq!(handler.dispatch(ZoneKind::Default, &request), success(Vec::new()));
    assert_eq!(
        handler.dispatch(ZoneKind::MyIp, &request),
        success(vec![Record {
            name: name(&["anything", "dnsfun", "dev"]),
            ttl: RECORD_TTL,
            data: RecordData::A(0xc000_0207),
        }])
    );
    assert_eq!(
        handler.dispatch(ZoneKind::Hello, &request),
        success(vec![text_record(&["anything", "dnsfun", "dev"], b"hello, world")])
    );
    assert_eq!(handler.counter.load(Ordering::SeqCst), 0);
    assert_eq!(
        handler.dispatch(ZoneKind::Counter, &request),
        success(vec![text_record(&["anything", "dnsfun", "dev"], b"1")])
    );
    assert_eq!(handler.counter.load(Ordering::SeqCst), 1);
}
