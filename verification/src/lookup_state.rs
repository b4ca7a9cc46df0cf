//! Caching related functionality for the Resolver.

use crate::error::ClientError;
use crate::error::LookupError;
use crate::lookup::Lookup;
use crate::lru::cached;
use crate::lru::distinct_keys;
use crate::lru::inserted;
use crate::lru::lemma_inserted;
use crate::lru::lemma_refreshed;
use crate::lru::lemma_removed;
use crate::lru::lru_capacity;
use crate::lru::lru_entries;
use crate::lru::lru_get_mut;
use crate::lru::lru_insert;
use crate::lru::lru_len;
use crate::lru::lru_limit;
use crate::lru::lru_new;
use crate::lru::lru_remove;
use crate::lru::refreshed;
use crate::lru::removed;
use crate::lru::CacheKey;
use crate::lru::Entries;
use crate::op::Message;
use crate::op::Query;
use crate::op::QueryKey;
use crate::op::ResponseCode;
use crate::rr::RData;
use crate::rr::Record;
use crate::rr::RecordType;
use crate::time::Instant;
use lru_cache::LruCache;
use std::sync::Arc;
use vstd::pervasive::unreached;
use vstd::prelude::*;

verus! {

/// Maximum TTL as defined in https://tools.ietf.org/html/rfc2181
pub const MAX_TTL: u32 = 2147483647_u32;

/// What the cache holds for a query: an answer, or the knowledge that there
/// is none, and the time until which that may be used.
#[derive(Debug)]
pub struct LruValue {
    // In the None case, this represents an NXDomain
    pub lookup: Option<Lookup>,
    pub ttl_until: Instant,
}

impl LruValue {
    /// Returns true if this set of ips is still valid
    pub fn is_current(&self, now: Instant) -> (current: bool)
        ensures
            current == (now@ <= self.ttl_until@),
    {
        now.le(&self.ttl_until)
    }
}

/// The least time to live among `rdatas_and_ttl`, and at most `MAX_TTL`.
pub open spec fn min_ttl(rdatas_and_ttl: Seq<(RData, u32)>) -> u32
    decreases rdatas_and_ttl.len(),
{
    if rdatas_and_ttl.len() == 0 {
        MAX_TTL
    } else {
        let rest = min_ttl(rdatas_and_ttl.drop_last());
        if rdatas_and_ttl.last().1 < rest {
            rdatas_and_ttl.last().1
        } else {
            rest
        }
    }
}

/// The least time to live among `rdatas_and_ttl`, and at most `MAX_TTL`.
pub fn least_ttl(rdatas_and_ttl: &Vec<(RData, u32)>) -> (ttl: u32)
    ensures
        ttl == min_ttl(rdatas_and_ttl@),
{
    let mut ttl: u32 = MAX_TTL;
    let mut i: usize = 0;
    while i < rdatas_and_ttl.len()
        invariant
            i <= rdatas_and_ttl.len(),
            ttl == min_ttl(rdatas_and_ttl@.take(i as int)),
        decreases rdatas_and_ttl.len() - i,
    {
        proof {
            assert(rdatas_and_ttl@.take(i + 1).drop_last() == rdatas_and_ttl@.take(i as int));
        }
        if rdatas_and_ttl[i].1 < ttl {
            ttl = rdatas_and_ttl[i].1;
        }
        i += 1;
    }
    proof {
        assert(rdatas_and_ttl@.take(rdatas_and_ttl.len() as int) == rdatas_and_ttl@);
    }
    ttl
}

/// The record data of `rdatas_and_ttl`, in order.
pub open spec fn rdatas_of(rdatas_and_ttl: Seq<(RData, u32)>) -> Seq<RData> {
    rdatas_and_ttl.map_values(|pair: (RData, u32)| pair.0)
}

/// What a cache that holds `entries` has to offer for `key` at `now`:
/// nothing where it holds nothing for the key or what it holds is out of
/// date, else the answer held, or `None` for the knowledge that there is none.
pub open spec fn usable(entries: Entries, key: QueryKey, now: Instant) -> Option<Option<Lookup>> {
    match cached(entries, key) {
        Some(value) => if now@ <= value.ttl_until@ {
            Some(value.lookup)
        } else {
            None
        },
        None => None,
    }
}

/// What a cache that held `entries` holds after it was asked for `key` at
/// `now`: an entry that was read has become the most recently used, one that
/// was found out of date is gone.
pub open spec fn after_get(entries: Entries, key: QueryKey, now: Instant) -> Entries {
    match cached(entries, key) {
        Some(value) => if now@ <= value.ttl_until@ {
            refreshed(entries, key)
        } else {
            removed(entries, key)
        },
        None => entries,
    }
}

/// The cache: a bounded map from queries to answers that has the least
/// recently used entry make room for a new one.
///
/// Its view is what it holds, from the least to the most recently used entry.
#[derive(Debug)]
pub struct DnsLru(LruCache<CacheKey, LruValue>);

impl View for DnsLru {
    type V = Entries;

    closed spec fn view(&self) -> Entries {
        lru_entries(self.0)
    }
}

impl DnsLru {
    /// The number of entries that the cache holds at most.
    pub closed spec fn limit(&self) -> nat {
        lru_limit(self.0)
    }

    /// No query has two entries, and the cache holds no more than its limit.
    pub open spec fn wf(&self) -> bool {
        &&& distinct_keys(self@)
        &&& self@.len() <= self.limit()
    }

    pub fn new(capacity: usize) -> (lru: Self)
        ensures
            lru.wf(),
            lru@ == Seq::<(QueryKey, LruValue)>::empty(),
            lru.limit() == capacity,
    {
        DnsLru(lru_new(capacity))
    }

    /// The number of entries that the cache holds at most.
    pub fn capacity(&self) -> (capacity: usize)
        ensures
            capacity == self.limit(),
    {
        lru_capacity(&self.0)
    }

    /// The number of entries that the cache holds.
    pub fn len(&self) -> (len: usize)
        ensures
            len == self@.len(),
    {
        lru_len(&self.0)
    }

    /// Puts the answer made of `rdatas_and_ttl` in for `query`, to be used
    /// until the least time to live among them has passed from `now` on, and
    /// returns it.
    pub fn insert(&mut self, query: Query, rdatas_and_ttl: Vec<(RData, u32)>, now: Instant) -> (lookup:
        Lookup)
        requires
            old(self).wf(),
            now.can_add_secs(min_ttl(rdatas_and_ttl@)),
        ensures
            final(self).wf(),
            final(self).limit() == old(self).limit(),
            lookup@ == rdatas_of(rdatas_and_ttl@),
            final(self)@ == inserted(
                old(self)@,
                old(self).limit(),
                query.key(),
                LruValue {
                    lookup: Some(lookup),
                    ttl_until: now.plus_secs(min_ttl(rdatas_and_ttl@)),
                },
            ),
            final(self).limit() >= 1 ==> cached(final(self)@, query.key()) == Some(
                LruValue {
                    lookup: Some(lookup),
                    ttl_until: now.plus_secs(min_ttl(rdatas_and_ttl@)),
                },
            ),
    {
        let len = rdatas_and_ttl.len();
        let ghost all = rdatas_and_ttl@;
        // collapse the values, we're going to take the Minimum TTL as the correct one
        let mut rdatas: Vec<RData> = Vec::with_capacity(len);
        let mut ttl: u32 = MAX_TTL;
        for pair in it: rdatas_and_ttl
            invariant
                it.seq() == all,
                rdatas@ == rdatas_of(all.take(it.index() as int)),
                ttl == min_ttl(all.take(it.index() as int)),
        {
            proof {
                assert(all.take(it.index() + 1).drop_last() == all.take(it.index() as int));
            }
            rdatas.push(pair.0);
            ttl = if pair.1 < ttl {
                pair.1
            } else {
                ttl
            };
        }
        proof {
            assert(all.take(all.len() as int) == all);
        }
        let ttl_until = now.add_secs(ttl);

        // insert into the LRU
        let lookup = Lookup::new(Arc::new(rdatas));
        let value = LruValue { lookup: Some(lookup.clone()), ttl_until };
        proof {
            lemma_inserted(self@, self.limit(), query.key(), value);
        }
        lru_insert(&mut self.0, query.cache_key(), value);

        lookup
    }

    /// The failure that says that `query` has no answer.
    pub fn nx_error(query: Query) -> (error: LookupError)
        ensures
            error == LookupError::NameDoesNotExist(query),
    {
        LookupError::NameDoesNotExist(query)
    }

    /// Records that `query` has no answer, to be believed until `ttl`
    /// seconds have passed from `now` on, and returns the failure that says
    /// so.
    pub fn negative(&mut self, query: Query, ttl: u32, now: Instant) -> (error: LookupError)
        requires
            old(self).wf(),
            now.can_add_secs(ttl),
        ensures
            final(self).wf(),
            final(self).limit() == old(self).limit(),
            error == LookupError::NameDoesNotExist(query),
            final(self)@ == inserted(
                old(self)@,
                old(self).limit(),
                query.key(),
                LruValue { lookup: None, ttl_until: now.plus_secs(ttl) },
            ),
            final(self).limit() >= 1 ==> cached(final(self)@, query.key()) == Some(
                LruValue { lookup: None, ttl_until: now.plus_secs(ttl) },
            ),
    {
        let ttl_until = now.add_secs(ttl);
        let value = LruValue { lookup: None, ttl_until };
        proof {
            lemma_inserted(self@, self.limit(), query.key(), value);
        }
        lru_insert(&mut self.0, query.cache_key(), value);

        Self::nx_error(query)
    }

    /// This needs to be mut b/c it's an LRU, meaning the ordering of elements will potentially change on retrieval...
    ///
    /// `None` where nothing usable is held for the query; `Some(None)` where
    /// the cache knows that the name has no such records; else the answer.
    /// An entry that was read stays and becomes the most recently used; one
    /// that is found out of date is removed.
    pub fn get(&mut self, query: &Query, now: Instant) -> (found: Option<Option<Lookup>>)
        requires
            old(self).wf(),
        ensures
            final(self).wf(),
            final(self).limit() == old(self).limit(),
            found == usable(old(self)@, query.key(), now),
            final(self)@ == after_get(old(self)@, query.key(), now),
            cached(final(self)@, query.key()) == (if found is Some {
                cached(old(self)@, query.key())
            } else {
                None::<LruValue>
            }),
    {
        let key = query.cache_key();
        proof {
            lemma_refreshed(self@, query.key());
            lemma_removed(refreshed(self@, query.key()), query.key());
            lemma_removed(self@, query.key());
        }
        let mut out_of_date = false;
        let lookup = match lru_get_mut(&mut self.0, &key) {
            Some(value) => {
                if value.is_current(now) {
                    out_of_date = false;
                    match &value.lookup {
                        Some(lookup) => Some(Some(lookup.clone())),
                        None => Some(None),
                    }
                } else {
                    out_of_date = true;
                    None
                }
            },
            None => None,
        };

        // in this case, we can preemtively remove out of data elements
        // this assumes time is always moving forward, this would only not be true in contrived situations where now
        //  is not current time, like tests...
        if out_of_date {
            lru_remove(&mut self.0, &key);
        }
        lookup
    }
}

/// How an attempt to take the cache's lock without waiting can fail.
#[derive(Debug, Clone, PartialEq, Eq)]
pub enum TryLockError {
    /// A holder of the lock failed while it held it; the text is what the
    /// lock reported.
    Poisoned(String),
    /// The lock is held by someone else.
    WouldBlock,
}

/// Whether a value that was asked for is there yet.
#[derive(Debug, Clone, PartialEq, Eq)]
pub enum Async<T> {
    /// The value is there.
    Ready(T),
    /// The value is not there yet; ask again later.
    NotReady,
}

/// The result of asking for a value that may fail or not be there yet.
pub type Poll<T> = Result<Async<T>, LookupError>;

/// What became of the attempt to take the lock, where it failed: a busy lock
/// means to ask again, a poisoned one ends the lookup.
pub open spec fn lock_failure<T>(error: TryLockError) -> Poll<T> {
    match error {
        TryLockError::WouldBlock => Ok(Async::NotReady),
        TryLockError::Poisoned(poison) => Err(LookupError::LockPoisoned(poison)),
    }
}

/// The first step of a lookup: ask the cache.
#[derive(Debug, PartialEq, Eq)]
pub struct FromCache {
    pub query: Query,
}

impl FromCache {
    /// Asks the cache for the query, given what became of the attempt to take
    /// the cache's lock, and the time read under the lock.
    ///
    /// Not ready means that the lock was busy: the task that runs the lookup
    /// has itself polled again at once.
    pub fn poll(&self, lock: Result<&mut DnsLru, TryLockError>, now: Instant) -> (found: Poll<
        Option<Option<Lookup>>,
    >)
        requires
            lock matches Ok(lru) ==> lru.wf(),
        ensures
            match lock {
                Ok(lru) => {
                    &&& found == Ok::<Async<Option<Option<Lookup>>>, LookupError>(
                        Async::Ready(usable(lru@, self.query.key(), now)),
                    )
                    &&& final(lru)@ == after_get(lru@, self.query.key(), now)
                    &&& final(lru).wf()
                    &&& final(lru).limit() == lru.limit()
                },
                Err(error) => found == lock_failure::<Option<Option<Lookup>>>(error),
            },
    {
        match lock {
            Err(TryLockError::WouldBlock) => Ok(Async::NotReady),
            // a poisoned lock is not recovered from here: that takes recreating the lock at a higher layer
            Err(TryLockError::Poisoned(poison)) => Err(LookupError::LockPoisoned(poison)),
            Ok(lru) => Ok(Async::Ready(lru.get(&self.query, now))),
        }
    }
}

/// What a response was found to say.
#[derive(Debug, PartialEq, Eq)]
pub enum Records {
    /// The records exists, a vec of rdata with ttl
    Exists(Vec<(RData, u32)>),
    /// Records do not exist, ttl for negative caching
    NoData(Option<u32>),
}

/// What a response was found to say, as a value of specifications.
pub enum Classified {
    /// These records, each with its time to live, answer the query.
    Exists(Seq<(RData, u32)>),
    /// No record answers the query; if a time is given, that may be
    /// remembered for so many seconds.
    NoData(Option<u32>),
}

impl View for Records {
    type V = Classified;

    open spec fn view(&self) -> Classified {
        match *self {
            Records::Exists(records) => Classified::Exists(records@),
            Records::NoData(ttl) => Classified::NoData(ttl),
        }
    }
}

/// What a record gives to the answer of a query for `query_type`: its data
/// and time to live where it is of that type, else nothing.
pub open spec fn answering(query_type: RecordType) -> spec_fn(Record) -> Option<(RData, u32)> {
    |record: Record|
        if record.rr_type == query_type {
            Some((record.rdata, record.ttl))
        } else {
            None
        }
}

/// The first of `records` whose type is `SOA`, if there is one.
pub open spec fn first_soa(records: Seq<Record>) -> Option<Record>
    decreases records.len(),
{
    if records.len() == 0 {
        None
    } else if records[0].rr_type == RecordType::SOA {
        Some(records[0])
    } else {
        first_soa(records.drop_first())
    }
}

/// For how long `name_servers`, the authority section of a response, lets a
/// negative answer be cached: the minimum field of its first record of type
/// `SOA`, where there is such a record and its data is that of an `SOA`.
pub open spec fn soa_minimum(name_servers: Seq<Record>) -> Option<u32> {
    match first_soa(name_servers) {
        Some(record) => match record.rdata {
            RData::SOA(soa) => Some(soa.minimum),
            _ => None,
        },
        None => None,
    }
}

/// What `message` says in answer to a query for `query_type`, sent by a
/// client that validates (`dnssec`) or does not; or the status of the
/// message, where that is an error.
///
/// "Name does not exist" is a negative answer, to be remembered for the time
/// that the authority section gives. Success with records of the type asked
/// for is those records. Success without any is a negative answer too, but
/// one that is remembered only where the client does not validate.
pub open spec fn classify(message: Message, query_type: RecordType, dnssec: bool) -> Result<
    Classified,
    ResponseCode,
> {
    match message.response_code {
        ResponseCode::NXDomain => Ok(Classified::NoData(soa_minimum(message.name_servers@))),
        ResponseCode::NoError => {
            let records = message.answers@.filter_map(answering(query_type));
            if records.len() > 0 {
                Ok(Classified::Exists(records))
            } else if dnssec {
                Ok(Classified::NoData(None))
            } else {
                Ok(Classified::NoData(soa_minimum(message.name_servers@)))
            }
        },
        code => Err(code),
    }
}

/// The second step of a lookup: wait for the response to the query that
/// was sent upstream, and classify it.
#[derive(Debug, PartialEq, Eq)]
pub struct QueryFuture {
    pub query: Query,
    /// is this a DNSSec validating client?
    pub dnssec: bool,
}

impl QueryFuture {
    /// Classifies a response that came with status success.
    pub fn handle_noerror(&self, message: Message) -> (records: Records)
        ensures
            records@ == ({
                let found = message.answers@.filter_map(answering(self.query.query_type));
                if found.len() > 0 {
                    Classified::Exists(found)
                } else if self.dnssec {
                    Classified::NoData(None)
                } else {
                    Classified::NoData(soa_minimum(message.name_servers@))
                }
            }),
    {
        // CNAME records are not followed here
        let mut rest = message;
        let answers = rest.take_answers();
        let ghost all = answers@;
        let ghost keep = answering(self.query.query_type);
        let mut records: Vec<(RData, u32)> = Vec::new();
        for r in it: answers
            invariant
                it.seq() == all,
                keep == answering(self.query.query_type),
                records@ == all.take(it.index() as int).filter_map(keep),
        {
            proof {
                all.lemma_filter_map_take_succ(keep, it.index() as int);
            }
            let ttl = r.ttl();
            // restrict to the RData type requested
            if self.query.query_type() == r.rr_type() {
                records.push((r.unwrap_rdata(), ttl));
            }
        }
        proof {
            assert(all.take(all.len() as int) == all);
        }

        if !records.is_empty() {
            Records::Exists(records)
        } else {
            // See https://tools.ietf.org/html/rfc2308 for NoData section
            self.handle_nxdomain(rest, false)
        }
    }

    /// See https://tools.ietf.org/html/rfc2308
    ///
    /// For now we will regard NXDomain to strictly mean the query failed
    ///  and a record for the name, regardless of CNAME presence, what have you
    ///  ultimately does not exist.
    ///
    /// This also handles empty responses in the same way.
    ///
    /// # Arguments
    ///
    /// * `message` - message to extract SOA, etc, from for caching failed requests
    /// * `valid_nsec` - species that in DNSSec mode, this request is safe to cache
    pub fn handle_nxdomain(&self, message: Message, valid_nsec: bool) -> (records: Records)
        ensures
            records@ == Classified::NoData(
                if valid_nsec || !self.dnssec {
                    soa_minimum(message.name_servers@)
                } else {
                    None
                },
            ),
    {
        if valid_nsec || !self.dnssec {
            let mut rest = message;
            let name_servers = rest.take_name_servers();
            let mut i: usize = 0;
            proof {
                assert(name_servers@.skip(0) == name_servers@);
            }
            while i < name_servers.len()
                invariant
                    i <= name_servers.len(),
                    valid_nsec || !self.dnssec,
                    name_servers@ == message.name_servers@,
                    first_soa(name_servers@) == first_soa(name_servers@.skip(i as int)),
                decreases name_servers.len() - i,
            {
                if name_servers[i].rr_type() == RecordType::SOA {
                    return match name_servers[i].rdata() {
                        RData::SOA(soa) => Records::NoData(Some(soa.minimum())),
                        // the first record of type SOA decides, also where its data is none
                        _ => Records::NoData(None),
                    };
                }
                proof {
                    assert(name_servers@.skip(i as int).drop_first() == name_servers@.skip(i + 1));
                }
                i += 1;
            }
            Records::NoData(None)
        } else {
            Records::NoData(None)
        }
    }

    /// Takes what became of the poll of the upstream response, and
    /// classifies the response if it is there.
    ///
    /// Not ready means that the response is not there yet: the task that
    /// runs the lookup is woken when it comes.
    pub fn poll(&self, response: Result<Async<Message>, ClientError>) -> (records: Poll<Records>)
        ensures
            match response {
                Ok(Async::Ready(message)) => match classify(
                    message,
                    self.query.query_type,
                    self.dnssec,
                ) {
                    Ok(classified) => records matches Ok(Async::Ready(found)) && found@ == classified,
                    Err(code) => records == Err::<Async<Records>, LookupError>(
                        LookupError::Protocol(code),
                    ),
                },
                Ok(Async::NotReady) => records == Ok::<Async<Records>, LookupError>(Async::NotReady),
                Err(error) => records == Err::<Async<Records>, LookupError>(
                    LookupError::Transport(error),
                ),
            },
    {
        match response {
            Ok(Async::Ready(message)) => {
                match message.response_code() {
                    ResponseCode::NXDomain => Ok(Async::Ready(self.handle_nxdomain(message, true))),
                    ResponseCode::NoError => Ok(Async::Ready(self.handle_noerror(message))),
                    r => Err(LookupError::Protocol(r)),
                }
            },
            Ok(Async::NotReady) => Ok(Async::NotReady),
            Err(err) => Err(LookupError::Transport(err)),
        }
    }
}

/// The last step of a lookup: write what the response said to the cache.
#[derive(Debug, PartialEq, Eq)]
pub struct InsertCache {
    pub rdatas: Records,
    pub query: Query,
}

impl InsertCache {
    /// For how many seconds the cache is to hold what the response said, if
    /// it is to hold it at all.
    pub open spec fn ttl(&self) -> Option<u32> {
        match self.rdatas {
            Records::Exists(records) => Some(min_ttl(records@)),
            Records::NoData(ttl) => ttl,
        }
    }

    /// What writing to a cache that holds `entries`, and at most `limit` of
    /// them, at `now` comes to: `outcome` is the lookup's end and `after`
    /// what the cache then holds.
    ///
    /// Records become the answer, which is cached for the least of their
    /// times to live. A negative answer ends the lookup with "name does not
    /// exist", and is cached only where it came with a time.
    pub open spec fn written(
        &self,
        entries: Entries,
        limit: nat,
        now: Instant,
        outcome: Poll<Lookup>,
        after: Entries,
    ) -> bool {
        match self.rdatas {
            Records::Exists(records) => {
                &&& outcome matches Ok(Async::Ready(lookup))
                &&& lookup@ == rdatas_of(records@)
                &&& after == inserted(
                    entries,
                    limit,
                    self.query.key(),
                    LruValue {
                        lookup: Some(lookup),
                        ttl_until: now.plus_secs(min_ttl(records@)),
                    },
                )
            },
            Records::NoData(Some(ttl)) => {
                &&& outcome == Err::<Async<Lookup>, LookupError>(
                    LookupError::NameDoesNotExist(self.query),
                )
                &&& after == inserted(
                    entries,
                    limit,
                    self.query.key(),
                    LruValue { lookup: None, ttl_until: now.plus_secs(ttl) },
                )
            },
            Records::NoData(None) => {
                &&& outcome == Err::<Async<Lookup>, LookupError>(
                    LookupError::NameDoesNotExist(self.query),
                )
                &&& after == entries
            },
        }
    }

    /// Writes what the response said to the cache, given what became of the
    /// attempt to take the cache's lock, and the time read under the lock.
    ///
    /// Not ready means that the lock was busy: the task that runs the lookup
    /// has itself polled again at once, and `self` is as it was. Once the
    /// lock was held the lookup is over, and `self` has given up what it
    /// held.
    pub fn poll(&mut self, lock: Result<&mut DnsLru, TryLockError>, now: Instant) -> (outcome: Poll<
        Lookup,
    >)
        requires
            lock matches Ok(lru) ==> lru.wf() && (old(self).ttl() matches Some(ttl)
                ==> now.can_add_secs(ttl)),
        ensures
            match lock {
                Ok(lru) => {
                    &&& old(self).written(lru@, lru.limit(), now, outcome, final(lru)@)
                    &&& final(lru).wf()
                    &&& final(lru).limit() == lru.limit()
                    &&& final(self).rdatas@ == Classified::NoData(None)
                    &&& final(self).query.key() == ("."@, 1u16, 1u16)
                },
                Err(error) => outcome == lock_failure::<Lookup>(error) && *final(self) == *old(self),
            },
    {
        match lock {
            Err(TryLockError::WouldBlock) => Ok(Async::NotReady),
            // a poisoned lock is not recovered from here: that takes recreating the lock at a higher layer
            Err(TryLockError::Poisoned(poison)) => Err(LookupError::LockPoisoned(poison)),
            Ok(lru) => {
                // self gives up what it holds: it is not polled again
                let mut query = Query::new();
                std::mem::swap(&mut self.query, &mut query);
                let mut rdata = Records::NoData(None);
                std::mem::swap(&mut self.rdatas, &mut rdata);

                match rdata {
                    Records::Exists(rdata) => Ok(Async::Ready(lru.insert(query, rdata, now))),
                    Records::NoData(Some(ttl)) => Err(lru.negative(query, ttl, now)),
                    _ => Err(DnsLru::nx_error(query)),
                }
            },
        }
    }
}

/// What the task that runs a lookup does after a step that did not end it.
#[derive(Debug, PartialEq, Eq, Clone, Copy, Structural)]
pub enum Action {
    /// Send the query to the upstream client and keep the response to come;
    /// then have the task polled again at once.
    SendQuery,
    /// Have the task polled again at once.
    Yield,
    /// Nothing: the response to come wakes the task.
    AwaitResponse,
}

/// What a step of a lookup came to, where it did not fail.
#[derive(Debug, PartialEq, Eq)]
pub enum Step {
    /// The lookup is over: this is the answer.
    Ready(Lookup),
    /// The lookup goes on from this state, once the task has done this.
    NotReady(QueryState, Action),
}

/// What happened outside since the last step of a lookup.
pub enum Event<'a> {
    /// What became of the attempt to take the cache's lock without waiting,
    /// and the time read after it.
    Cache(Result<&'a mut DnsLru, TryLockError>, Instant),
    /// What became of the poll of the upstream response.
    Response(Result<Async<Message>, ClientError>),
}

/// Where a lookup stands.
#[derive(Debug, PartialEq, Eq)]
pub enum QueryState {
    /// In the FromCache state we evaluate cache entries for any results;
    /// the flag says whether the client validates with DNSSec
    FromCache(FromCache, bool),
    /// In the query state there is an active query that's been started: it
    /// was sent upstream, and the response is waited for
    Query(QueryFuture),
    /// State of adding the item to the cache
    InsertCache(InsertCache),
}

impl QueryState {
    /// The state in which a lookup of `query` starts, for a client that
    /// validates with DNSSec (`dnssec`) or does not.
    pub fn lookup(query: Query, dnssec: bool) -> (state: QueryState)
        ensures
            state == QueryState::FromCache(FromCache { query }, dnssec),
    {
        QueryState::FromCache(FromCache { query }, dnssec)
    }

    /// The query that the lookup is for.
    pub open spec fn query(&self) -> Query {
        match *self {
            QueryState::FromCache(from_cache, _) => from_cache.query,
            QueryState::Query(query) => query.query,
            QueryState::InsertCache(insert_cache) => insert_cache.query,
        }
    }

    /// Whether the next step needs the cache: if not, it needs the upstream
    /// response.
    pub open spec fn needs_cache(&self) -> bool {
        !(*self is Query)
    }

    /// Whether the next step needs the cache: if not, it needs the upstream
    /// response.
    pub fn wants_cache(&self) -> (wants: bool)
        ensures
            wants == self.needs_cache(),
    {
        match self {
            QueryState::Query(_) => false,
            _ => true,
        }
    }

    /// The query that the lookup is for.
    pub fn current_query(&self) -> (query: &Query)
        ensures
            *query == self.query(),
    {
        match self {
            QueryState::FromCache(from_cache, _) => &from_cache.query,
            QueryState::Query(query) => &query.query,
            QueryState::InsertCache(insert_cache) => &insert_cache.query,
        }
    }

    /// For how many seconds the next step will have the cache hold
    /// something, if it will.
    pub open spec fn ttl(&self) -> Option<u32> {
        match *self {
            QueryState::InsertCache(insert_cache) => insert_cache.ttl(),
            _ => None,
        }
    }

    /// Whether a step can be taken at `now`: whether what the step will have
    /// the cache hold, if anything, can be held until a time that can still
    /// be represented.
    pub fn can_poll_at(&self, now: Instant) -> (can: bool)
        ensures
            can == (self.ttl() matches Some(ttl) ==> now.can_add_secs(ttl)),
    {
        match self {
            QueryState::InsertCache(insert_cache) => match &insert_cache.rdatas {
                Records::Exists(records) => now.checked_add_secs(least_ttl(records)).is_some(),
                Records::NoData(Some(ttl)) => now.checked_add_secs(*ttl).is_some(),
                Records::NoData(None) => true,
            },
            _ => true,
        }
    }

    /// Query after a failed cache lookup
    pub fn query_after_cache(self) -> (state: QueryState)
        requires
            self is FromCache,
        ensures
            state == QueryState::Query(
                QueryFuture { query: self->FromCache_0.query, dnssec: self->FromCache_1 },
            ),
    {
        match self {
            QueryState::FromCache(from_cache, dnssec) => {
                QueryState::Query(QueryFuture { query: from_cache.query, dnssec })
            },
            _ => unreached(),
        }
    }

    /// After the response was classified: on to writing `rdatas` to the cache.
    pub fn cache(self, rdatas: Records) -> (state: QueryState)
        requires
            self is Query,
        ensures
            state == QueryState::InsertCache(InsertCache { rdatas, query: self->Query_0.query }),
    {
        match self {
            QueryState::Query(QueryFuture { query, dnssec: _ }) => {
                QueryState::InsertCache(InsertCache { rdatas, query })
            },
            _ => unreached(),
        }
    }

    /// What a lookup that asks a cache holding `entries` for its query at
    /// `now` comes to: the answer held; "name does not exist" where the cache
    /// knows that; and on to sending the query upstream where the cache has
    /// nothing to offer.
    pub open spec fn asked(query: Query, dnssec: bool, entries: Entries, now: Instant) -> Result<
        Step,
        LookupError,
    > {
        match usable(entries, query.key(), now) {
            Some(Some(lookup)) => Ok(Step::Ready(lookup)),
            Some(None) => Err(LookupError::NameDoesNotExist(query)),
            None => Ok(
                Step::NotReady(QueryState::Query(QueryFuture { query, dnssec }), Action::SendQuery),
            ),
        }
    }

    /// What a lookup that could not take the cache's lock comes to: the same
    /// state again, at once, where the lock was busy; its end where the lock
    /// was poisoned.
    pub open spec fn blocked(self, error: TryLockError) -> Result<Step, LookupError> {
        match error {
            TryLockError::WouldBlock => Ok(Step::NotReady(self, Action::Yield)),
            TryLockError::Poisoned(poison) => Err(LookupError::LockPoisoned(poison)),
        }
    }

    /// What a lookup that waits for `pending`'s response comes to, given
    /// what became of the poll of that response: `outcome`.
    ///
    /// No response yet: the same state, until the response wakes the task. A
    /// failure of the client ends the lookup with that failure, and so does a
    /// response with an error status. Any other response is classified, and
    /// the lookup goes on at once to writing to the cache.
    pub open spec fn answered(
        pending: QueryFuture,
        response: Result<Async<Message>, ClientError>,
        outcome: Result<Step, LookupError>,
    ) -> bool {
        match response {
            Ok(Async::Ready(message)) => match classify(
                message,
                pending.query.query_type,
                pending.dnssec,
            ) {
                Ok(classified) => {
                    &&& outcome matches Ok(
                        Step::NotReady(QueryState::InsertCache(insert_cache), Action::Yield),
                    )
                    &&& insert_cache.query == pending.query
                    &&& insert_cache.rdatas@ == classified
                },
                Err(code) => outcome == Err::<Step, LookupError>(LookupError::Protocol(code)),
            },
            Ok(Async::NotReady) => outcome == Ok::<Step, LookupError>(
                Step::NotReady(QueryState::Query(pending), Action::AwaitResponse),
            ),
            Err(error) => outcome == Err::<Step, LookupError>(LookupError::Transport(error)),
        }
    }

    /// What a lookup that writes to a cache holding `entries`, and at most
    /// `limit` of them, at `now` comes to: `outcome`, with `after` held by
    /// the cache then.
    pub open spec fn stored(
        insert_cache: InsertCache,
        entries: Entries,
        limit: nat,
        now: Instant,
        outcome: Result<Step, LookupError>,
        after: Entries,
    ) -> bool {
        match outcome {
            Ok(Step::Ready(lookup)) => insert_cache.written(
                entries,
                limit,
                now,
                Ok(Async::Ready(lookup)),
                after,
            ),
            Ok(Step::NotReady(_, _)) => false,
            Err(error) => insert_cache.written(entries, limit, now, Err(error), after),
        }
    }

    /// One step of the lookup.
    ///
    /// In the states that need the cache the step takes what became of the
    /// attempt to take the cache's lock; in the other it takes what became of
    /// the poll of the upstream response. It ends the lookup, with the answer
    /// or with a failure, or hands back the state from which to go on and
    /// what the task is to do before.
    pub fn poll(self, event: Event<'_>) -> (outcome: Result<Step, LookupError>)
        requires
            self.needs_cache() <==> event is Cache,
            event matches Event::Cache(Ok(lru), now) ==> lru.wf() && (self.ttl() matches Some(ttl)
                ==> now.can_add_secs(ttl)),
        ensures
            match event {
                Event::Cache(Ok(lru), now) => {
                    &&& final(lru).wf()
                    &&& final(lru)@.len() <= final(lru).limit()
                    &&& final(lru).limit() == lru.limit()
                    &&& match self {
                        QueryState::FromCache(from_cache, dnssec) => {
                            &&& outcome == Self::asked(from_cache.query, dnssec, lru@, now)
                            &&& final(lru)@ == after_get(lru@, from_cache.query.key(), now)
                        },
                        QueryState::InsertCache(insert_cache) => Self::stored(
                            insert_cache,
                            lru@,
                            lru.limit(),
                            now,
                            outcome,
                            final(lru)@,
                        ),
                        QueryState::Query(_) => false,
                    }
                },
                Event::Cache(Err(error), _) => outcome == self.blocked(error),
                Event::Response(response) => self matches QueryState::Query(pending)
                    && Self::answered(pending, response, outcome),
            },
    {
        match self {
            QueryState::FromCache(from_cache, dnssec) => {
                match event {
                    Event::Cache(lock, now) => {
                        match from_cache.poll(lock, now) {
                            // need to query since it wasn't in the cache
                            Ok(Async::Ready(None)) => {
                                let state = QueryState::FromCache(from_cache, dnssec);
                                Ok(Step::NotReady(state.query_after_cache(), Action::SendQuery))
                            },
                            Ok(Async::Ready(Some(Some(ips)))) => Ok(Step::Ready(ips)),
                            Ok(Async::Ready(Some(None))) => Err(DnsLru::nx_error(from_cache.query)),
                            Ok(Async::NotReady) => Ok(
                                Step::NotReady(
                                    QueryState::FromCache(from_cache, dnssec),
                                    Action::Yield,
                                ),
                            ),
                            Err(error) => Err(error),
                        }
                    },
                    Event::Response(_) => unreached(),
                }
            },
            QueryState::Query(query) => {
                match event {
                    Event::Response(response) => {
                        match query.poll(response) {
                            Ok(Async::NotReady) => Ok(
                                Step::NotReady(QueryState::Query(query), Action::AwaitResponse),
                            ),
                            Ok(Async::Ready(rdatas)) => Ok(
                                Step::NotReady(QueryState::Query(query).cache(rdatas), Action::Yield),
                            ),
                            Err(e) => Err(e),
                        }
                    },
                    Event::Cache(_, _) => unreached(),
                }
            },
            QueryState::InsertCache(insert_cache) => {
                match event {
                    Event::Cache(lock, now) => {
                        let mut insert_cache = insert_cache;
                        match insert_cache.poll(lock, now) {
                            Ok(Async::Ready(lookup)) => Ok(Step::Ready(lookup)),
                            Ok(Async::NotReady) => Ok(
                                Step::NotReady(QueryState::InsertCache(insert_cache), Action::Yield),
                            ),
                            Err(error) => Err(error),
                        }
                    },
                    Event::Response(_) => unreached(),
                }
            },
        }
    }
}

/// A client that answers from its cache where it can.
///
/// It owns the cache and knows whether the upstream client validates with
/// DNSSec. A lookup is a `QueryState`; whoever runs it sends the query
/// upstream when a step says so, and hands each step what happened outside.
#[derive(Debug)]
pub struct CachingClient {
    lru: DnsLru,
    dnssec: bool,
}

impl CachingClient {
    /// What the cache holds, from the least to the most recently used entry.
    pub closed spec fn entries(&self) -> Entries {
        self.lru@
    }

    /// The number of entries that the cache holds at most.
    pub closed spec fn limit(&self) -> nat {
        self.lru.limit()
    }

    /// Whether the upstream client validates with DNSSec.
    pub closed spec fn dnssec(&self) -> bool {
        self.dnssec
    }

    /// No query has two entries, and the cache holds no more than its limit.
    pub open spec fn wf(&self) -> bool {
        &&& distinct_keys(self.entries())
        &&& self.entries().len() <= self.limit()
    }

    /// A client with an empty cache that holds at most `max_size` entries.
    pub fn new(max_size: usize, dnssec: bool) -> (client: Self)
        ensures
            client.wf(),
            client.entries() == Seq::<(QueryKey, LruValue)>::empty(),
            client.limit() == max_size,
            client.dnssec() == dnssec,
    {
        CachingClient { lru: DnsLru::new(max_size), dnssec }
    }

    /// Perform a lookup against this caching client, looking first in the cache for a result
    ///
    /// The lookup is handed out in its first state; it is run by `poll`.
    pub fn lookup(&mut self, query: Query) -> (state: QueryState)
        ensures
            state == QueryState::FromCache(FromCache { query }, old(self).dnssec()),
            *final(self) == *old(self),
    {
        QueryState::lookup(query, self.dnssec)
    }

    /// One step of a lookup against this client's cache, for a task that has
    /// the cache to itself, so that the lock is never busy.
    ///
    /// `response` is what became of the poll of the upstream response; it is
    /// read only in the state that waits for it. `now` is the time.
    pub fn poll(
        &mut self,
        state: QueryState,
        response: Result<Async<Message>, ClientError>,
        now: Instant,
    ) -> (outcome: Result<Step, LookupError>)
        requires
            old(self).wf(),
            state.ttl() matches Some(ttl) ==> now.can_add_secs(ttl),
        ensures
            final(self).wf(),
            final(self).limit() == old(self).limit(),
            final(self).dnssec() == old(self).dnssec(),
            match state {
                QueryState::FromCache(from_cache, dnssec) => {
                    &&& outcome == QueryState::asked(
                        from_cache.query,
                        dnssec,
                        old(self).entries(),
                        now,
                    )
                    &&& final(self).entries() == after_get(
                        old(self).entries(),
                        from_cache.query.key(),
                        now,
                    )
                },
                QueryState::Query(pending) => {
                    &&& QueryState::answered(pending, response, outcome)
                    &&& final(self).entries() == old(self).entries()
                },
                QueryState::InsertCache(insert_cache) => QueryState::stored(
                    insert_cache,
                    old(self).entries(),
                    old(self).limit(),
                    now,
                    outcome,
                    final(self).entries(),
                ),
            },
    {
        if state.wants_cache() {
            state.poll(Event::Cache(Ok(&mut self.lru), now))
        } else {
            state.poll(Event::Response(response))
        }
    }
}

} // verus!
