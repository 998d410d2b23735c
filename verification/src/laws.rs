//! What holds of request handling on every input, proved from the
//! definitions that the contracts of the handler use.

use vstd::prelude::*;
use crate::counter::{count_after, decimal, lemma_decimal_injective};
use crate::error::ErrorView;
use crate::handler::{address_data, answer, greeting, validation, Handler, ZoneKind};
use crate::message::{OpCode, Query};
use crate::response::{one_record, server_failure, success, RecordDataView, ResponseCode, ResponseView};

verus! {

/// A zone claims its own name and every name that ends with it.
pub proof fn lemma_zone_claims_names_below(zone: Seq<Seq<u8>>, front: Seq<Seq<u8>>)
    ensures
        zone.is_suffix_of(zone),
        zone.is_suffix_of(front + zone),
{
    assert(zone =~= zone.subrange(0, zone.len() as int));
    let name = front + zone;
    assert(zone =~= name.subrange(name.len() - zone.len(), name.len() as int));
}

/// A zone claims no name but those that end with it.
pub proof fn lemma_zone_claims_only_names_below(zone: Seq<Seq<u8>>, name: Seq<Seq<u8>>)
    requires
        zone.is_suffix_of(name),
    ensures
        name == name.subrange(0, name.len() - zone.len()) + zone,
{
    assert(name =~= name.subrange(0, name.len() - zone.len()) + zone);
}

/// The three specific zones are disjoint: no name is claimed by two of them.
/// So the order in which they are asked does not matter.
pub proof fn lemma_specific_zones_disjoint(handler: Handler, name: Seq<Seq<u8>>)
    requires
        handler.well_formed(),
    ensures
        !(handler.myip_zone@.is_suffix_of(name) && handler.counter_zone@.is_suffix_of(name)),
        !(handler.myip_zone@.is_suffix_of(name) && handler.hello_zone@.is_suffix_of(name)),
        !(handler.counter_zone@.is_suffix_of(name) && handler.hello_zone@.is_suffix_of(name)),
{
    let myip = handler.myip_zone@;
    let counter = handler.counter_zone@;
    let hello = handler.hello_zone@;
    assert(myip[0].len() == 4);
    assert(counter[0].len() == 7);
    assert(hello[0].len() == 5);
    let below = name.len() - handler.root_zone@.len() - 1;
    if myip.is_suffix_of(name) {
        assert(name[below] == myip[0]);
    }
    if counter.is_suffix_of(name) {
        assert(name[below] == counter[0]);
    }
    if hello.is_suffix_of(name) {
        assert(name[below] == hello[0]);
    }
}

/// Whatever a specific zone claims, the root zone claims too. So the root
/// zone can only be the fallback: it is asked last.
pub proof fn lemma_specific_zones_under_root(handler: Handler, name: Seq<Seq<u8>>)
    requires
        handler.well_formed(),
        handler.myip_zone@.is_suffix_of(name) || handler.counter_zone@.is_suffix_of(name)
            || handler.hello_zone@.is_suffix_of(name),
    ensures
        handler.root_zone@.is_suffix_of(name),
{
    let root = handler.root_zone@;
    let start = name.len() - root.len();
    assert forall|i: int| 0 <= i < root.len() implies root[i] == name[start + i] by {
        if handler.myip_zone@.is_suffix_of(name) {
            assert(handler.myip_zone@[i + 1] == name[start - 1 + (i + 1)]);
        } else if handler.counter_zone@.is_suffix_of(name) {
            assert(handler.counter_zone@[i + 1] == name[start - 1 + (i + 1)]);
        } else {
            assert(handler.hello_zone@[i + 1] == name[start - 1 + (i + 1)]);
        }
    }
    assert(root =~= name.subrange(start, name.len() as int));
}

/// The zone of a name, said without an order: each specific zone answers
/// exactly the names it claims, the root zone the other names under the base
/// domain, and no zone the names outside it.
pub proof fn lemma_zone_for(handler: Handler, name: Seq<Seq<u8>>)
    requires
        handler.well_formed(),
    ensures
        handler.zone_for(name) == Some(ZoneKind::MyIp) <==> handler.myip_zone@.is_suffix_of(name),
        handler.zone_for(name) == Some(ZoneKind::Counter) <==> handler.counter_zone@.is_suffix_of(
            name,
        ),
        handler.zone_for(name) == Some(ZoneKind::Hello) <==> handler.hello_zone@.is_suffix_of(name),
        handler.zone_for(name) == Some(ZoneKind::Default) <==> handler.root_zone@.is_suffix_of(name)
            && !handler.myip_zone@.is_suffix_of(name) && !handler.counter_zone@.is_suffix_of(name)
            && !handler.hello_zone@.is_suffix_of(name),
        handler.zone_for(name) is None <==> !handler.root_zone@.is_suffix_of(name),
{
    lemma_specific_zones_disjoint(handler, name);
    if handler.myip_zone@.is_suffix_of(name) || handler.counter_zone@.is_suffix_of(name)
        || handler.hello_zone@.is_suffix_of(name) {
        lemma_specific_zones_under_root(handler, name);
    }
}

/// A standard query for a name in the myip zone is answered with success and
/// exactly one record: the address that the request came from.
pub proof fn lemma_myip_reports_source(handler: Handler, query: Query, previous: u64)
    requires
        validation(query) is None,
        handler.myip_zone@.is_suffix_of(query.name@),
    ensures
        handler.reply(query, previous) == success(
            one_record(query.name@, address_data(query.src)),
        ),
        handler.reply(query, previous).code == ResponseCode::NoError,
        handler.reply(query, previous).records.len() == 1,
        handler.reply(query, previous).records[0].data == address_data(query.src),
{
}

/// A standard query for a name in the hello zone is answered with the same
/// text whoever asks, whenever, and whatever the counter holds.
pub proof fn lemma_hello_is_fixed(handler: Handler, query: Query, previous: u64)
    requires
        handler.well_formed(),
        validation(query) is None,
        handler.hello_zone@.is_suffix_of(query.name@),
    ensures
        handler.reply(query, previous) == success(
            one_record(query.name@, RecordDataView::Txt(greeting())),
        ),
        handler.reply(query, previous).records[0].data == RecordDataView::Txt(greeting()),
{
    lemma_zone_for(handler, query.name@);
}

/// A query for a name outside the base domain fails: the response is a
/// server failure without records, and the error names the queried name
/// unless validation objected first.
pub proof fn lemma_foreign_name_fails(handler: Handler, query: Query, previous: u64)
    requires
        handler.well_formed(),
        !handler.root_zone@.is_suffix_of(query.name@),
    ensures
        handler.reply(query, previous) == server_failure(),
        handler.reply(query, previous).code == ResponseCode::ServFail,
        handler.reply(query, previous).records.len() == 0,
        validation(query) is None ==> handler.outcome(query, previous) == Err::<
            ResponseView,
            ErrorView,
        >(ErrorView::InvalidZone(query.name@)),
{
    lemma_zone_for(handler, query.name@);
}

/// A standard query for the base domain, or for a name under it that no
/// specific zone claims, is answered with success and no records.
pub proof fn lemma_unclaimed_name_is_quiet(handler: Handler, query: Query, previous: u64)
    requires
        validation(query) is None,
        handler.root_zone@.is_suffix_of(query.name@),
        !handler.myip_zone@.is_suffix_of(query.name@),
        !handler.counter_zone@.is_suffix_of(query.name@),
        !handler.hello_zone@.is_suffix_of(query.name@),
    ensures
        handler.reply(query, previous) == success(Seq::empty()),
        handler.reply(query, previous).code == ResponseCode::NoError,
        handler.reply(query, previous).records.len() == 0,
{
}

/// Each zone answers for its own name: `myip`, `counter` and `hello` below
/// the base domain reach their generators, and the base domain itself
/// reaches the default one.
pub proof fn lemma_zone_names_reach_their_zones(handler: Handler)
    requires
        handler.well_formed(),
    ensures
        handler.zone_for(handler.myip_zone@) == Some(ZoneKind::MyIp),
        handler.zone_for(handler.counter_zone@) == Some(ZoneKind::Counter),
        handler.zone_for(handler.hello_zone@) == Some(ZoneKind::Hello),
        handler.zone_for(handler.root_zone@) == Some(ZoneKind::Default),
{
    let front = Seq::<Seq<u8>>::empty();
    lemma_zone_claims_names_below(handler.myip_zone@, front);
    lemma_zone_claims_names_below(handler.counter_zone@, front);
    lemma_zone_claims_names_below(handler.hello_zone@, front);
    lemma_zone_claims_names_below(handler.root_zone@, front);
    lemma_zone_for(handler, handler.myip_zone@);
    lemma_zone_for(handler, handler.counter_zone@);
    lemma_zone_for(handler, handler.hello_zone@);
    lemma_zone_for(handler, handler.root_zone@);
}

/// A request that is not a standard query in a query message fails with a
/// server failure, whatever its name, and leaves the counter alone.
pub proof fn lemma_invalid_request_fails(handler: Handler, query: Query, previous: u64)
    requires
        validation(query) is Some,
    ensures
        handler.reply(query, previous) == server_failure(),
        !handler.counts(query),
        handler.counter_after(query, previous) == previous,
        query.op_code != OpCode::Query ==> handler.outcome(query, previous) == Err::<
            ResponseView,
            ErrorView,
        >(ErrorView::InvalidOpCode(query.op_code)),
{
}

/// The requests that add to the counter are the standard queries for names
/// in the counter zone, and no others.
pub proof fn lemma_counts(handler: Handler, query: Query)
    requires
        handler.well_formed(),
    ensures
        handler.counts(query) <==> validation(query) is None
            && handler.counter_zone@.is_suffix_of(query.name@),
{
    lemma_zone_for(handler, query.name@);
}

/// Every response is well formed: records come only with success.
pub proof fn lemma_reply_well_formed(handler: Handler, query: Query, previous: u64)
    ensures
        handler.reply(query, previous).well_formed(),
{
}

/// Only a request that reaches the counter zone reads the counter: every
/// other response is the same whatever the counter holds.
pub proof fn lemma_reply_ignores_counter(handler: Handler, query: Query, a: u64, b: u64)
    requires
        !handler.counts(query),
    ensures
        handler.reply(query, a) == handler.reply(query, b),
        handler.outcome(query, a) == handler.outcome(query, b),
{
}

/// What the shared counter holds when the request at position `index` of
/// `queries` reaches it, where it held `start` before the first and the
/// requests are taken one after the other.
pub open spec fn counter_before(handler: Handler, start: u64, queries: Seq<Query>, index: nat) -> u64
    decreases index,
{
    if index == 0 {
        start
    } else {
        handler.counter_after(
            queries[index - 1],
            counter_before(handler, start, queries, (index - 1) as nat),
        )
    }
}

/// How many of the first `index` requests of `queries` reach the counter
/// zone.
pub open spec fn counted_before(handler: Handler, queries: Seq<Query>, index: nat) -> nat
    decreases index,
{
    if index == 0 {
        0
    } else {
        counted_before(handler, queries, (index - 1) as nat) + if handler.counts(
            queries[index - 1],
        ) {
            1nat
        } else {
            0nat
        }
    }
}

/// The responses to `queries`, taken one after the other, where the shared
/// counter held `start` before the first.
pub open spec fn serve(handler: Handler, start: u64, queries: Seq<Query>) -> Seq<ResponseView> {
    Seq::new(
        queries.len(),
        |index: int| handler.reply(queries[index], counter_before(handler, start, queries, index as nat)),
    )
}

/// The count of counting requests only grows along a sequence.
pub proof fn lemma_counted_grows(handler: Handler, queries: Seq<Query>, early: nat, late: nat)
    requires
        early <= late,
    ensures
        counted_before(handler, queries, early) <= counted_before(handler, queries, late),
    decreases late,
{
    if early < late {
        lemma_counted_grows(handler, queries, early, (late - 1) as nat);
    }
}

/// No increment is lost and none is made twice: after any sequence of
/// requests, in whatever order they were taken, the counter has advanced by
/// exactly the number of requests that reached the counter zone, as long as
/// it does not pass its largest value.
pub proof fn lemma_counter_advances_by_count(
    handler: Handler,
    start: u64,
    queries: Seq<Query>,
    index: nat,
)
    requires
        start + counted_before(handler, queries, index) <= u64::MAX,
    ensures
        counter_before(handler, start, queries, index) == start + counted_before(
            handler,
            queries,
            index,
        ),
    decreases index,
{
    if index > 0 {
        lemma_counter_advances_by_count(handler, start, queries, (index - 1) as nat);
    }
}

/// The k-th request that reaches the counter zone is answered with the
/// k-th value after the start, in decimal: the values go up by one from
/// request to request of that zone, without gaps, however many requests to
/// other zones come in between.
pub proof fn lemma_counter_answers_count_up(
    handler: Handler,
    start: u64,
    queries: Seq<Query>,
    index: nat,
)
    requires
        index < queries.len(),
        handler.counts(queries[index as int]),
        start + counted_before(handler, queries, index + 1) <= u64::MAX,
    ensures
        counted_before(handler, queries, index + 1) == counted_before(handler, queries, index) + 1,
        serve(handler, start, queries)[index as int] == success(
            one_record(
                queries[index as int].name@,
                RecordDataView::Txt(
                    decimal((start + counted_before(handler, queries, index + 1)) as nat),
                ),
            ),
        ),
{
    lemma_counter_advances_by_count(handler, start, queries, index);
}

/// Two requests that reach the counter zone are never answered with the
/// same value: the later one reports a larger number, and its text differs.
pub proof fn lemma_counter_answers_distinct(
    handler: Handler,
    start: u64,
    queries: Seq<Query>,
    early: nat,
    late: nat,
)
    requires
        early < late < queries.len(),
        handler.counts(queries[early as int]),
        handler.counts(queries[late as int]),
        start + counted_before(handler, queries, late + 1) <= u64::MAX,
    ensures
        counted_before(handler, queries, early + 1) < counted_before(handler, queries, late + 1),
        serve(handler, start, queries)[early as int].records[0].data != serve(
            handler,
            start,
            queries,
        )[late as int].records[0].data,
{
    lemma_counted_grows(handler, queries, early + 1, late);
    lemma_counted_grows(handler, queries, early + 1, late + 1);
    lemma_counter_answers_count_up(handler, start, queries, early);
    lemma_counter_answers_count_up(handler, start, queries, late);
    let a = (start + counted_before(handler, queries, early + 1)) as nat;
    let b = (start + counted_before(handler, queries, late + 1)) as nat;
    if decimal(a) == decimal(b) {
        lemma_decimal_injective(a, b);
    }
}

/// A request that fails leaves the counter as it found it: it does not
/// count, and it takes nothing back of what earlier requests counted.
pub proof fn lemma_failure_keeps_counter(handler: Handler, query: Query, previous: u64)
    requires
        handler.outcome(query, previous) is Err,
    ensures
        handler.counter_after(query, previous) == previous,
{
}

} // verus!
