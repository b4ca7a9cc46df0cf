//! What holds of the cache and of the lookups that run against it, proved
//! from the contracts of their steps.

use crate::error::ClientError;
use crate::error::LookupError;
use crate::lookup::Lookup;
use crate::lookup_state::after_get;
use crate::lookup_state::classify;
use crate::lookup_state::min_ttl;
use crate::lookup_state::rdatas_of;
use crate::lookup_state::soa_minimum;
use crate::lookup_state::usable;
use crate::lookup_state::Action;
use crate::lookup_state::Async;
use crate::lookup_state::Classified;
use crate::lookup_state::InsertCache;
use crate::lookup_state::LruValue;
use crate::lookup_state::QueryFuture;
use crate::lookup_state::QueryState;
use crate::lookup_state::Step;
use crate::lookup_state::TryLockError;
use crate::lookup_state::MAX_TTL;
use crate::lru::cached;
use crate::lru::distinct_keys;
use crate::lru::inserted;
use crate::lru::lemma_inserted;
use crate::lru::lemma_refreshed;
use crate::lru::lemma_removed;
use crate::lru::removed;
use crate::lru::Entries;
use crate::op::Message;
use crate::op::Query;
use crate::op::QueryKey;
use crate::op::ResponseCode;
use crate::rr::RData;
use crate::time::Instant;
use vstd::prelude::*;

verus! {

/// The time to live that an answer is cached for is at most `MAX_TTL` and at
/// most that of each of its records; and it is `MAX_TTL` or that of one of
/// the records.
pub proof fn lemma_min_ttl_is_least(rdatas_and_ttl: Seq<(RData, u32)>)
    ensures
        min_ttl(rdatas_and_ttl) <= MAX_TTL,
        forall|i: int|
            0 <= i < rdatas_and_ttl.len() ==> min_ttl(rdatas_and_ttl) <= (
            #[trigger] rdatas_and_ttl[i]).1,
        min_ttl(rdatas_and_ttl) == MAX_TTL || exists|i: int|
            0 <= i < rdatas_and_ttl.len() && (#[trigger] rdatas_and_ttl[i]).1 == min_ttl(
                rdatas_and_ttl,
            ),
    decreases rdatas_and_ttl.len(),
{
    if rdatas_and_ttl.len() > 0 {
        let rest = rdatas_and_ttl.drop_last();
        lemma_min_ttl_is_least(rest);
        assert forall|i: int| 0 <= i < rdatas_and_ttl.len() implies min_ttl(rdatas_and_ttl) <= (
        #[trigger] rdatas_and_ttl[i]).1 by {
            if i < rest.len() {
                assert(rest[i] == rdatas_and_ttl[i]);
            }
        }
        if min_ttl(rdatas_and_ttl) != MAX_TTL && min_ttl(rdatas_and_ttl) == min_ttl(rest) {
            // the record that has the least time of the others has the least of all
            let i = choose|i: int| 0 <= i < rest.len() && (#[trigger] rest[i]).1 == min_ttl(rest);
            assert(rdatas_and_ttl[i] == rest[i]);
        }
    }
}

/// An answer that was put in the cache is held until the least of its
/// records' times to live has passed from the time it was put in: where some
/// record has a time to live of at most `MAX_TTL`, and the cache has room
/// for an entry at all.
pub proof fn lemma_answer_expires_after_least_ttl(
    entries: Entries,
    limit: nat,
    query: Query,
    rdatas_and_ttl: Seq<(RData, u32)>,
    lookup: Lookup,
    now: Instant,
)
    requires
        distinct_keys(entries),
        entries.len() <= limit,
        limit >= 1,
        now.can_add_secs(min_ttl(rdatas_and_ttl)),
        exists|i: int| 0 <= i < rdatas_and_ttl.len() && (#[trigger] rdatas_and_ttl[i]).1 <= MAX_TTL,
    ensures
        ({
            let least = min_ttl(rdatas_and_ttl);
            let after = inserted(
                entries,
                limit,
                query.key(),
                LruValue { lookup: Some(lookup), ttl_until: now.plus_secs(least) },
            );
            &&& cached(after, query.key()) matches Some(value)
            &&& value.lookup == Some(lookup)
            &&& value.ttl_until@ == now@ + least * 1_000_000_000
            &&& exists|i: int| 0 <= i < rdatas_and_ttl.len() && (#[trigger] rdatas_and_ttl[i]).1 == least
            &&& forall|i: int| 0 <= i < rdatas_and_ttl.len() ==> least <= (#[trigger] rdatas_and_ttl[i]).1
        }),
{
    let least = min_ttl(rdatas_and_ttl);
    let value = LruValue { lookup: Some(lookup), ttl_until: now.plus_secs(least) };
    lemma_inserted(entries, limit, query.key(), value);
    lemma_min_ttl_is_least(rdatas_and_ttl);
}

/// What the cache holds for a query is what it offers at any time up to the
/// time until which the entry is good, and the entry stays; at any later time
/// the cache offers nothing and the entry is gone.
pub proof fn lemma_entry_is_served_until_it_expires(
    entries: Entries,
    key: QueryKey,
    value: LruValue,
    now: Instant,
)
    requires
        distinct_keys(entries),
        cached(entries, key) == Some(value),
    ensures
        now@ <= value.ttl_until@ ==> usable(entries, key, now) == Some(value.lookup) && cached(
            after_get(entries, key, now),
            key,
        ) == Some(value),
        now@ > value.ttl_until@ ==> usable(entries, key, now) is None && cached(
            after_get(entries, key, now),
            key,
        ) is None,
        distinct_keys(after_get(entries, key, now)),
        after_get(entries, key, now).len() <= entries.len(),
{
    lemma_refreshed(entries, key);
    lemma_removed(entries, key);
}

/// A lookup sends its query upstream when it has asked the cache and the
/// cache had nothing to offer, and at no other step. A lookup that finds an
/// answer in the cache ends with it, and one that finds that there is none
/// ends with "name does not exist".
pub proof fn lemma_query_is_sent_on_a_miss_only(
    query: Query,
    dnssec: bool,
    entries: Entries,
    now: Instant,
)
    ensures
        usable(entries, query.key(), now) is None <==> (QueryState::asked(
            query,
            dnssec,
            entries,
            now,
        ) matches Ok(Step::NotReady(_, action)) && action == Action::SendQuery),
        usable(entries, query.key(), now) matches Some(Some(lookup)) ==> QueryState::asked(
            query,
            dnssec,
            entries,
            now,
        ) == Ok::<Step, LookupError>(Step::Ready(lookup)),
        usable(entries, query.key(), now) == Some(None::<Lookup>) ==> QueryState::asked(
            query,
            dnssec,
            entries,
            now,
        ) == Err::<Step, LookupError>(LookupError::NameDoesNotExist(query)),
{
}

/// No step but the one that asks the cache has the query sent: not one that
/// found the lock taken, not one that had the response, not one that wrote to
/// the cache.
pub proof fn lemma_no_other_step_sends_the_query(
    state: QueryState,
    error: TryLockError,
    pending: QueryFuture,
    response: Result<Async<Message>, ClientError>,
    answered: Result<Step, LookupError>,
    insert_cache: InsertCache,
    entries: Entries,
    limit: nat,
    now: Instant,
    stored: Result<Step, LookupError>,
    after: Entries,
)
    requires
        QueryState::answered(pending, response, answered),
        QueryState::stored(insert_cache, entries, limit, now, stored, after),
    ensures
        state.blocked(error) matches Ok(Step::NotReady(_, action)) ==> action == Action::Yield,
        answered matches Ok(Step::NotReady(_, action)) ==> action != Action::SendQuery,
        !(stored matches Ok(Step::NotReady(_, _))),
{
}

/// A lookup that misses the cache and then has a response with records of
/// the type asked for writes to the cache once, in its last step: what it
/// writes is its answer, the data of those records, and any lookup of the
/// same query that asks the cache thereafter, up to the time until which the
/// entry is good, ends with that answer. (The cache must have room for an
/// entry at all.)
pub proof fn lemma_miss_then_answer_is_cached(
    query: Query,
    dnssec: bool,
    first: Entries,
    asked_at: Instant,
    message: Message,
    answered: Result<Step, LookupError>,
    later: Entries,
    limit: nat,
    written_at: Instant,
    outcome: Result<Step, LookupError>,
    after: Entries,
    read_at: Instant,
)
    requires
        limit >= 1,
        distinct_keys(first),
        distinct_keys(later),
        later.len() <= limit,
        usable(first, query.key(), asked_at) is None,
        classify(message, query.query_type, dnssec) matches Ok(Classified::Exists(_)),
        QueryState::answered(QueryFuture { query, dnssec }, Ok(Async::Ready(message)), answered),
        answered matches Ok(Step::NotReady(QueryState::InsertCache(insert_cache), _))
            && QueryState::stored(insert_cache, later, limit, written_at, outcome, after),
    ensures
        QueryState::asked(query, dnssec, first, asked_at) == Ok::<Step, LookupError>(
            Step::NotReady(QueryState::Query(QueryFuture { query, dnssec }), Action::SendQuery),
        ),
        after_get(first, query.key(), asked_at) == removed(first, query.key()),
        classify(message, query.query_type, dnssec) matches Ok(Classified::Exists(records)) && ({
            let until = written_at.plus_secs(min_ttl(records));
            &&& outcome matches Ok(Step::Ready(lookup))
            &&& lookup@ == rdatas_of(records)
            &&& after == inserted(
                later,
                limit,
                query.key(),
                LruValue { lookup: Some(lookup), ttl_until: until },
            )
            &&& read_at@ <= until@ ==> QueryState::asked(query, dnssec, after, read_at) == Ok::<
                Step,
                LookupError,
            >(Step::Ready(lookup))
        }),
{
    lemma_removed(first, query.key());
    let insert_cache = answered->Ok_0->NotReady_0->InsertCache_0;
    let records = insert_cache.rdatas->Exists_0@;
    match outcome {
        Ok(Step::Ready(lookup)) => {
            let value = LruValue {
                lookup: Some(lookup),
                ttl_until: written_at.plus_secs(min_ttl(records)),
            };
            lemma_inserted(later, limit, query.key(), value);
        },
        _ => {},
    }
}

/// A response with status success and no record of the type asked for is a
/// negative answer. For a client that does not validate it may be cached for
/// the minimum that the first `SOA` record of the authority section gives,
/// and not at all where there is none; for a client that validates, not at
/// all.
pub proof fn lemma_success_without_records_is_negative(
    message: Message,
    query: Query,
    dnssec: bool,
)
    requires
        message.response_code == ResponseCode::NoError,
        !(classify(message, query.query_type, dnssec) matches Ok(Classified::Exists(_))),
    ensures
        classify(message, query.query_type, dnssec) == Ok::<Classified, ResponseCode>(
            Classified::NoData(
                if dnssec {
                    None
                } else {
                    soa_minimum(message.name_servers@)
                },
            ),
        ),
        soa_minimum(message.name_servers@) is None ==> classify(message, query.query_type, dnssec)
            == Ok::<Classified, ResponseCode>(Classified::NoData(None)),
{
}

/// A response with status "name does not exist" is a negative answer that
/// may be cached for the minimum that the first `SOA` record of the authority
/// section gives, and not at all where there is none.
pub proof fn lemma_name_does_not_exist_is_negative(message: Message, query: Query, dnssec: bool)
    requires
        message.response_code == ResponseCode::NXDomain,
    ensures
        classify(message, query.query_type, dnssec) == Ok::<Classified, ResponseCode>(
            Classified::NoData(soa_minimum(message.name_servers@)),
        ),
{
}

/// A negative answer that came with a time is written to the cache, and
/// every lookup of the same query that asks the cache before that time has
/// passed ends with "name does not exist" there and then: it sends no query,
/// and leaves the entry for the next lookup. One that came without a time is
/// not written. (The cache must have room for an entry at all.)
pub proof fn lemma_negative_answer_is_served_from_cache(
    query: Query,
    dnssec: bool,
    ttl: Option<u32>,
    insert_cache: InsertCache,
    entries: Entries,
    limit: nat,
    written_at: Instant,
    outcome: Result<Step, LookupError>,
    after: Entries,
    read_at: Instant,
)
    requires
        limit >= 1,
        distinct_keys(entries),
        entries.len() <= limit,
        insert_cache.query == query,
        insert_cache.rdatas@ == Classified::NoData(ttl),
        QueryState::stored(insert_cache, entries, limit, written_at, outcome, after),
    ensures
        outcome == Err::<Step, LookupError>(LookupError::NameDoesNotExist(query)),
        ttl is None ==> after == entries,
        ttl matches Some(seconds) ==> {
            let value = LruValue { lookup: None, ttl_until: written_at.plus_secs(seconds) };
            &&& after == inserted(entries, limit, query.key(), value)
            &&& read_at@ <= value.ttl_until@ ==> {
                &&& QueryState::asked(query, dnssec, after, read_at) == Err::<Step, LookupError>(
                    LookupError::NameDoesNotExist(query),
                )
                &&& cached(after_get(after, query.key(), read_at), query.key()) == Some(value)
            }
        },
{
    match ttl {
        Some(seconds) => {
            let value = LruValue { lookup: None, ttl_until: written_at.plus_secs(seconds) };
            lemma_inserted(entries, limit, query.key(), value);
            lemma_refreshed(after, query.key());
        },
        None => {},
    }
}

/// Whatever the lookups that share a cache do to it, and in whatever order,
/// it never holds more than its limit, nor two entries for one query: each
/// thing that a step does to the cache, asking it and writing to it, keeps it
/// so.
pub proof fn lemma_cache_never_exceeds_its_limit(
    entries: Entries,
    limit: nat,
    key: QueryKey,
    value: LruValue,
    now: Instant,
)
    requires
        distinct_keys(entries),
        entries.len() <= limit,
    ensures
        distinct_keys(after_get(entries, key, now)),
        after_get(entries, key, now).len() <= limit,
        distinct_keys(inserted(entries, limit, key, value)),
        inserted(entries, limit, key, value).len() <= limit,
{
    lemma_refreshed(entries, key);
    lemma_removed(entries, key);
    lemma_inserted(entries, limit, key, value);
}

/// A lookup stays where it is only while the lock is busy or the response
/// is not there: a step that had the lock, or the response, ends the lookup
/// or moves it on, from asking the cache to waiting for the response, and
/// from there to writing to the cache, which ends it.
pub proof fn lemma_step_moves_lookup_on(
    query: Query,
    dnssec: bool,
    entries: Entries,
    limit: nat,
    now: Instant,
    pending: QueryFuture,
    message: Message,
    answered: Result<Step, LookupError>,
    insert_cache: InsertCache,
    stored: Result<Step, LookupError>,
    after: Entries,
)
    requires
        QueryState::answered(pending, Ok(Async::Ready(message)), answered),
        QueryState::stored(insert_cache, entries, limit, now, stored, after),
    ensures
        QueryState::asked(query, dnssec, entries, now) matches Ok(Step::NotReady(next, _))
            ==> next is Query,
        answered matches Ok(Step::NotReady(next, _)) ==> next is InsertCache,
        !(stored matches Ok(Step::NotReady(_, _))),
{
}

} // verus!
