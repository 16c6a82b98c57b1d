//! The rules of fetching: the key under which a request is cached, the cache
//! that keeps responses fresh for a time and stale afterwards, the limiter
//! that grants a number of requests per minute, and the decisions that one
//! request goes through between its first attempt and its result.
//!
//! Time is a count of milliseconds on a clock that does not run backwards.
//! Whoever calls reads the clock; nothing here waits or sends.

use crate::models::{HeroConstant, HeroStat, ItemConstant};
use crate::order::{lemma_sorted_of_permutation, sort_texts, sorted};
use crate::recency::{distinct_keys, has_key, lemma_stored, lookup, stored, Recency};
use crate::text::{decimal, pieces, push_chars, push_decimal, push_str, string_from_chars};
use std::collections::HashMap;
use vstd::prelude::*;

verus! {

broadcast use vstd::std_specs::hash::group_hash_axioms;

/// The length of the limiter's window.
pub const WINDOW_MILLIS: u64 = 60_000;

/// The number of attempts that one request may make.
pub const MAX_ATTEMPTS: u32 = 2;

/// How long to wait after a failed attempt before the next one.
pub open spec fn backoff_millis(attempt: u32) -> u64 {
    if attempt == 1 {
        200
    } else if attempt == 2 {
        500
    } else {
        900
    }
}

pub fn backoff(attempt: u32) -> (millis: u64)
    ensures
        millis == backoff_millis(attempt),
{
    match attempt {
        1 => 200,
        2 => 500,
        _ => 900,
    }
}

/// One query parameter as the key spells it.
pub open spec fn pair_text(name: Seq<char>, value: Seq<char>) -> Seq<char> {
    name + seq!['='] + value
}

/// The parameters of a query, each as the key spells it, in the order given.
pub open spec fn pair_texts(query: Seq<(&str, String)>) -> Seq<Seq<char>> {
    Seq::new(query.len(), |i: int| pair_text(query[i].0@, query[i].1@))
}

/// The texts of `parts` with `sep` between each two.
pub open spec fn joined(parts: Seq<Seq<char>>, sep: Seq<char>) -> Seq<char>
    decreases parts.len(),
{
    if parts.len() == 0 {
        Seq::empty()
    } else if parts.len() == 1 {
        parts[0]
    } else {
        joined(parts.drop_last(), sep) + sep + parts.last()
    }
}

/// The key of a request: the address alone where there is no query, else the
/// address, `?`, and the parameters in ascending order with `&` between them.
pub open spec fn cache_key(url: Seq<char>, pairs: Option<Seq<Seq<char>>>) -> Seq<char> {
    match pairs {
        None => url,
        Some(pairs) => url + seq!['?'] + joined(sorted(pairs), seq!['&']),
    }
}

/// Two queries that hold the same parameters, in whatever order each, give
/// the same key.
pub proof fn lemma_key_ignores_order(url: Seq<char>, a: Seq<Seq<char>>, b: Seq<Seq<char>>)
    requires
        a.to_multiset() == b.to_multiset(),
    ensures
        cache_key(url, Some(a)) == cache_key(url, Some(b)),
{
    lemma_sorted_of_permutation(a, b);
}

fn join_texts(parts: &Vec<Vec<char>>, sep: char, out: &mut Vec<char>)
    ensures
        final(out)@ == old(out)@ + joined(pieces(parts@), seq![sep]),
{
    let ghost all = pieces(parts@);
    let mut i: usize = 0;
    assert(out@ =~= old(out)@ + joined(all.take(0), seq![sep]));
    while i < parts.len()
        invariant
            i <= parts.len(),
            all == pieces(parts@),
            out@ == old(out)@ + joined(all.take(i as int), seq![sep]),
        decreases parts.len() - i,
    {
        let ghost before = out@;
        if i > 0 {
            out.push(sep);
        }
        push_chars(&parts[i], out);
        proof {
            let next = all.take(i + 1);
            assert(next.drop_last() =~= all.take(i as int));
            assert(next.last() == parts@[i as int]@);
            if i > 0 {
                assert(out@ =~= before + seq![sep] + parts@[i as int]@);
                assert(out@ =~= old(out)@ + joined(next, seq![sep]));
            } else {
                assert(joined(all.take(0), seq![sep]) =~= Seq::<char>::empty());
                assert(out@ =~= old(out)@ + joined(next, seq![sep]));
            }
        }
        i += 1;
    }
    assert(all.take(parts@.len() as int) =~= all);
}

pub fn build_cache_key(url: &str, query: Option<&Vec<(&str, String)>>) -> (key: String)
    ensures
        key@ == cache_key(
            url@,
            match query {
                Some(params) => Some(pair_texts(params@)),
                None => None,
            },
        ),
{
    let params = match query {
        Some(params) => params,
        None => {
            return crate::text::owned(url);
        },
    };
    let mut pairs: Vec<Vec<char>> = Vec::new();
    let mut i: usize = 0;
    while i < params.len()
        invariant
            i <= params.len(),
            pairs@.len() == i,
            pieces(pairs@) == pair_texts(params@).take(i as int),
        decreases params.len() - i,
    {
        let mut pair: Vec<char> = Vec::new();
        push_str(params[i].0, &mut pair);
        pair.push('=');
        push_str(params[i].1.as_str(), &mut pair);
        assert(pair@ =~= pair_text(params@[i as int].0@, params@[i as int].1@));
        let ghost before = pairs@;
        pairs.push(pair);
        proof {
            assert forall|j: int| 0 <= j < i + 1 implies pieces(pairs@)[j] == pair_texts(params@).take(
                i + 1,
            )[j] by {
                if j < i {
                    assert(pieces(before)[j] == pair_texts(params@).take(i as int)[j]);
                }
            }
            assert(pieces(pairs@) =~= pair_texts(params@).take(i + 1));
        }
        i += 1;
    }
    assert(pair_texts(params@).take(params@.len() as int) =~= pair_texts(params@));
    let ordered = sort_texts(pairs);
    let mut out: Vec<char> = Vec::new();
    push_str(url, &mut out);
    out.push('?');
    join_texts(&ordered, '&', &mut out);
    assert(out@ =~= url@ + seq!['?'] + joined(sorted(pair_texts(params@)), seq!['&']));
    string_from_chars(&out)
}

/// The time that has passed at `now` since `since`, none if the clock reads
/// earlier than that.
pub open spec fn elapsed(now: u64, since: u64) -> nat {
    if now >= since {
        (now - since) as nat
    } else {
        0
    }
}

fn elapsed_millis(now: u64, since: u64) -> (r: u64)
    ensures
        r == elapsed(now, since),
{
    if now >= since {
        now - since
    } else {
        0
    }
}

/// A response as the cache keeps it: the bytes, and when they were written.
pub struct CacheEntry {
    pub inserted_at: u64,
    pub payload: Vec<u8>,
}

/// An entry is fresh for as long as its age is within the time to live.
pub open spec fn is_fresh(entry: CacheEntry, ttl: nat, now: u64) -> bool {
    elapsed(now, entry.inserted_at) <= ttl
}

/// What a read of `key` at `now` returns from the entries `m`: the payload of
/// the entry with whether it is still fresh, or nothing where there is no entry.
/// A stale entry is returned like a fresh one.
pub open spec fn read(m: Seq<(Seq<char>, CacheEntry)>, key: Seq<char>, ttl: nat, now: u64) -> Option<
    (Seq<u8>, bool),
> {
    match lookup(m, key) {
        Some(entry) => Some((entry.payload@, is_fresh(entry, ttl, now))),
        None => None,
    }
}

/// The entries after `payload` is written under `key` at `now`.
pub open spec fn written(
    m: Seq<(Seq<char>, CacheEntry)>,
    key: Seq<char>,
    payload: Vec<u8>,
    now: u64,
    limit: nat,
) -> Seq<(Seq<char>, CacheEntry)> {
    stored(m, key, CacheEntry { inserted_at: now, payload }, limit)
}

/// A key that was written is read back with its payload for as long as it is
/// kept, and the read calls it fresh exactly while no more than the time to
/// live has passed since the write.
pub proof fn lemma_fresh_within_ttl(
    m: Seq<(Seq<char>, CacheEntry)>,
    key: Seq<char>,
    payload: Vec<u8>,
    set_at: u64,
    get_at: u64,
    ttl: nat,
    limit: nat,
)
    requires
        distinct_keys(m),
        limit > 0,
    ensures
        read(written(m, key, payload, set_at, limit), key, ttl, get_at) == Some(
            (payload@, elapsed(get_at, set_at) <= ttl),
        ),
{
    lemma_stored(m, key, CacheEntry { inserted_at: set_at, payload }, limit);
}

/// The last successful response of each request, by key. An entry is fresh
/// for `ttl` milliseconds and stale afterwards; a stale entry stays until
/// newer keys push it out.
pub struct Cache {
    store: Recency<CacheEntry>,
    ttl: u64,
}

impl Cache {
    /// The entries, newest write first.
    pub closed spec fn entries(&self) -> Seq<(Seq<char>, CacheEntry)> {
        self.store@
    }

    /// The time to live, in milliseconds.
    pub closed spec fn ttl(&self) -> nat {
        self.ttl as nat
    }

    /// The greatest number of entries kept.
    pub closed spec fn max_entries(&self) -> nat {
        self.store.limit()
    }

    pub fn new(max_entries: usize, ttl: u64) -> (r: Self)
        ensures
            r.entries() == Seq::<(Seq<char>, CacheEntry)>::empty(),
            r.ttl() == ttl,
            r.max_entries() == max_entries,
    {
        Cache { store: Recency::new(max_entries), ttl }
    }

    /// The number of entries, which never passes the limit.
    pub fn len(&self) -> (n: usize)
        ensures
            n == self.entries().len(),
            n <= self.max_entries(),
            distinct_keys(self.entries()),
    {
        self.store.len()
    }

    /// Whether the cache holds an entry for `key`, fresh or stale.
    pub fn contains_key(&self, key: &str) -> (r: bool)
        ensures
            r == has_key(self.entries(), key@),
    {
        self.store.contains_key(key)
    }

    /// The payload under `key` and whether it is fresh at `now`.
    pub fn get(&self, key: &str, now: u64) -> (r: Option<(Vec<u8>, bool)>)
        ensures
            match read(self.entries(), key@, self.ttl(), now) {
                Some((payload, fresh)) => r matches Some((p, f)) && p@ == payload && f == fresh,
                None => r is None,
            },
    {
        match self.store.get(key) {
            Some(entry) => {
                let fresh = elapsed_millis(now, entry.inserted_at) <= self.ttl;
                let payload = copy_bytes(&entry.payload);
                Some((payload, fresh))
            },
            None => None,
        }
    }

    /// Writes `payload` under `key` at `now`, in place of any entry the key
    /// had, and lets the oldest entries go while there are too many.
    pub fn set(&mut self, key: String, payload: Vec<u8>, now: u64)
        ensures
            final(self).entries() == written(
                old(self).entries(),
                key@,
                payload,
                now,
                old(self).max_entries(),
            ),
            final(self).ttl() == old(self).ttl(),
            final(self).max_entries() == old(self).max_entries(),
    {
        self.store.put(key, CacheEntry { inserted_at: now, payload });
    }
}

/// A copy of `bytes`.
pub fn copy_bytes(bytes: &Vec<u8>) -> (out: Vec<u8>)
    ensures
        out@ == bytes@,
{
    let mut out: Vec<u8> = Vec::new();
    let mut i: usize = 0;
    while i < bytes.len()
        invariant
            i <= bytes.len(),
            out@ == bytes@.take(i as int),
        decreases bytes.len() - i,
    {
        out.push(bytes[i]);
        assert(bytes@.take(i + 1) =~= bytes@.take(i as int).push(bytes@[i as int]));
        i += 1;
    }
    assert(bytes@.take(bytes@.len() as int) =~= bytes@);
    out
}

/// What a limiter holds: its quota, the tokens left in the window, and when
/// the window began.
pub struct Bucket {
    pub per_minute: u32,
    pub tokens: u32,
    pub last_refill: u64,
}

impl Bucket {
    /// A full bucket whose window begins at `now`.
    pub open spec fn full(per_minute: u32, now: u64) -> Bucket {
        Bucket { per_minute, tokens: per_minute, last_refill: now }
    }

    /// The bucket as a refill at `now` leaves it: full again, with a new
    /// window, once a whole window has passed; else as it was.
    pub open spec fn refilled(self, now: u64) -> Bucket {
        if elapsed(now, self.last_refill) >= WINDOW_MILLIS {
            Bucket { per_minute: self.per_minute, tokens: self.per_minute, last_refill: now }
        } else {
            self
        }
    }

    /// How long a caller at `now` has to wait for a token: not at all while
    /// the refilled bucket holds one, else until the window ends.
    pub open spec fn wait_at(self, now: u64) -> Option<u64> {
        let b = self.refilled(now);
        if b.tokens == 0 {
            Some((WINDOW_MILLIS - elapsed(now, b.last_refill)) as u64)
        } else {
            None
        }
    }

    /// The bucket after a caller at `now` has asked for a token: one token
    /// fewer where it had one; where it had none the caller waits and takes
    /// none.
    pub open spec fn acquired(self, now: u64) -> Bucket {
        let b = self.refilled(now);
        if b.tokens == 0 {
            b
        } else {
            Bucket { per_minute: b.per_minute, tokens: (b.tokens - 1) as u32, last_refill: b.last_refill }
        }
    }

    /// The bucket after a caller has asked at each of `times` in turn.
    pub open spec fn acquired_all(self, times: Seq<u64>) -> Bucket
        decreases times.len(),
    {
        if times.len() == 0 {
            self
        } else {
            self.acquired_all(times.drop_last()).acquired(times.last())
        }
    }

    pub open spec fn well_formed(self) -> bool {
        self.tokens <= self.per_minute
    }
}

/// A bucket never holds more tokens than its quota, whatever is asked of it.
pub proof fn lemma_bucket_stays_well_formed(b: Bucket, now: u64)
    requires
        b.well_formed(),
    ensures
        b.refilled(now).well_formed(),
        b.acquired(now).well_formed(),
        b.acquired(now).per_minute == b.per_minute,
{
}

/// As many callers as the quota allows get a token from a full bucket
/// without waiting, whenever each of them asks.
pub proof fn lemma_burst_never_waits(per_minute: u32, start: u64, times: Seq<u64>, k: int)
    requires
        0 <= k < times.len() <= per_minute,
    ensures
        Bucket::full(per_minute, start).acquired_all(times.take(k)).wait_at(times[k]) is None,
{
    lemma_burst_leaves(per_minute, start, times.take(k));
}

proof fn lemma_burst_leaves(per_minute: u32, start: u64, times: Seq<u64>)
    requires
        times.len() <= per_minute,
    ensures
        Bucket::full(per_minute, start).acquired_all(times).tokens >= per_minute - times.len(),
        Bucket::full(per_minute, start).acquired_all(times).tokens <= per_minute,
        Bucket::full(per_minute, start).acquired_all(times).per_minute == per_minute,
    decreases times.len(),
{
    if times.len() > 0 {
        lemma_burst_leaves(per_minute, start, times.drop_last());
    }
}

/// Once a burst inside one window has used the whole quota, the next caller in
/// that window waits until the window ends, and a refill at or after that
/// moment fills the bucket again.
pub proof fn lemma_throttle_after_burst(
    per_minute: u32,
    start: u64,
    times: Seq<u64>,
    next: u64,
    woken: u64,
)
    requires
        times.len() == per_minute,
        forall|i: int| 0 <= i < times.len() ==> start <= #[trigger] times[i] < start + WINDOW_MILLIS,
        start <= next < start + WINDOW_MILLIS,
        woken >= start + WINDOW_MILLIS,
    ensures
        ({
            let used = Bucket::full(per_minute, start).acquired_all(times);
            &&& used.wait_at(next) == Some((start + WINDOW_MILLIS - next) as u64)
            &&& used.acquired(next) == used
            &&& used.refilled(woken) == Bucket::full(per_minute, woken)
        }),
{
    lemma_burst_in_window(per_minute, start, times);
}

proof fn lemma_burst_in_window(per_minute: u32, start: u64, times: Seq<u64>)
    requires
        times.len() <= per_minute,
        forall|i: int| 0 <= i < times.len() ==> start <= #[trigger] times[i] < start + WINDOW_MILLIS,
    ensures
        Bucket::full(per_minute, start).acquired_all(times) == (Bucket {
            per_minute,
            tokens: (per_minute - times.len()) as u32,
            last_refill: start,
        }),
    decreases times.len(),
{
    if times.len() > 0 {
        let before = times.drop_last();
        assert forall|i: int| 0 <= i < before.len() implies start <= #[trigger] before[i] < start
            + WINDOW_MILLIS by {
            assert(before[i] == times[i]);
        }
        lemma_burst_in_window(per_minute, start, before);
        assert(start <= times[times.len() - 1] < start + WINDOW_MILLIS);
    }
}

/// Grants `per_minute` requests in each window of a minute.
pub struct RateLimiter {
    per_minute: u32,
    tokens: u32,
    last_refill: u64,
}

impl View for RateLimiter {
    type V = Bucket;

    closed spec fn view(&self) -> Bucket {
        Bucket { per_minute: self.per_minute, tokens: self.tokens, last_refill: self.last_refill }
    }
}

impl RateLimiter {
    #[verifier::type_invariant]
    spec fn within_quota(&self) -> bool {
        self.tokens <= self.per_minute
    }

    pub fn new(per_minute: u32, now: u64) -> (r: Self)
        ensures
            r@ == Bucket::full(per_minute, now),
    {
        RateLimiter { per_minute, tokens: per_minute, last_refill: now }
    }

    /// The tokens left, never more than the quota.
    pub fn tokens(&self) -> (n: u32)
        ensures
            n == self@.tokens,
            self@.well_formed(),
    {
        proof {
            use_type_invariant(self);
        }
        self.tokens
    }

    pub fn per_minute(&self) -> (n: u32)
        ensures
            n == self@.per_minute,
    {
        self.per_minute
    }

    /// Takes a token at `now`. Where none is left, returns how long the
    /// caller has to wait for the window to end; the caller then sleeps
    /// that long, calls `refill`, and goes on without taking a token.
    pub fn acquire(&mut self, now: u64) -> (wait: Option<u64>)
        ensures
            wait == old(self)@.wait_at(now),
            final(self)@ == old(self)@.acquired(now),
    {
        self.refill(now);
        proof {
            use_type_invariant(&*self);
        }
        if self.tokens == 0 {
            let passed = elapsed_millis(now, self.last_refill);
            let wait = if passed >= WINDOW_MILLIS {
                0
            } else {
                WINDOW_MILLIS - passed
            };
            return Some(wait);
        }
        self.tokens = self.tokens - 1;
        None
    }

    /// Fills the bucket at `now` if a whole window has passed since it was
    /// last filled.
    pub fn refill(&mut self, now: u64)
        ensures
            final(self)@ == old(self)@.refilled(now),
    {
        if elapsed_millis(now, self.last_refill) >= WINDOW_MILLIS {
            self.tokens = self.per_minute;
            self.last_refill = now;
        }
    }
}

/// Why a request came to nothing.
#[derive(Debug)]
pub enum FetchError {
    /// The server answered with a status that is no success.
    Status { code: u16 },
    /// The request could not be sent or no answer came.
    Transport { message: String },
    /// The answer's body could not be read.
    Body { message: String },
}

/// What one attempt came to.
pub enum Attempt {
    /// A success status, and the body that came with it.
    Success { body: Vec<u8> },
    /// A status that is no success.
    Status { code: u16 },
    /// No answer. `retryable` tells a timeout, a failed connection or a
    /// malformed request from every other failure.
    Transport { retryable: bool, message: String },
    /// A success status whose body could not be read.
    Body { message: String },
}

/// What to do next for a request.
pub enum Next {
    /// Make an attempt: take a permit, take a token, send.
    Send,
    /// Wait this many milliseconds, then make another attempt.
    Retry { millis: u64 },
    /// Done: the bytes of a fresh cache entry, with nothing sent.
    Fresh { payload: Vec<u8> },
    /// Done: the body of a successful attempt, to be written to the cache.
    Store { payload: Vec<u8> },
    /// Done: every attempt failed, and the cache's old entry is served.
    Stale { payload: Vec<u8> },
    /// Done: every attempt failed, and the cache had nothing.
    Fail { error: FetchError },
}

/// Whether a request that got no answer may be sent again: where it timed
/// out, where no connection was made, or where the request itself was
/// malformed. Every other failure of the transport is final.
pub open spec fn is_retryable(timeout: bool, connect: bool, request: bool) -> bool {
    timeout || connect || request
}

/// Whether a request that got no answer may be sent again, given what kind
/// of failure the transport reports.
pub fn transport_retryable(timeout: bool, connect: bool, request: bool) -> (r: bool)
    ensures
        r == is_retryable(timeout, connect, request),
{
    timeout || connect || request
}

impl Attempt {
    /// A failure of the transport as an attempt came to it.
    pub fn transport(timeout: bool, connect: bool, request: bool, message: String) -> (r: Attempt)
        ensures
            r == (Attempt::Transport {
                retryable: is_retryable(timeout, connect, request),
                message,
            }),
    {
        Attempt::Transport { retryable: transport_retryable(timeout, connect, request), message }
    }

    /// Whether the attempt may be made again: a bad status always, a
    /// transport failure where it is of a retryable kind.
    pub open spec fn may_retry(self) -> bool {
        match self {
            Attempt::Status { .. } => true,
            Attempt::Transport { retryable, .. } => retryable,
            _ => false,
        }
    }

    /// The error that the attempt stands for, where it failed.
    pub open spec fn error(self) -> FetchError {
        match self {
            Attempt::Status { code } => FetchError::Status { code },
            Attempt::Transport { message, .. } => FetchError::Transport { message },
            Attempt::Body { message } => FetchError::Body { message },
            Attempt::Success { .. } => FetchError::Status { code: 200 },
        }
    }
}

/// What the cache held for the key when the request began.
pub open spec fn start_of(cached: Option<(Vec<u8>, bool)>) -> Next {
    match cached {
        Some((payload, true)) => Next::Fresh { payload },
        _ => Next::Send,
    }
}

/// What follows the `attempt`-th attempt, given what it came to and what
/// the cache held when the request began.
pub open spec fn after_attempt(cached: Option<(Vec<u8>, bool)>, attempt: u32, outcome: Attempt) -> Next {
    match outcome {
        Attempt::Success { body } => Next::Store { payload: body },
        Attempt::Body { message } => Next::Fail { error: FetchError::Body { message } },
        _ => if attempt < MAX_ATTEMPTS && outcome.may_retry() {
            Next::Retry { millis: backoff_millis(attempt) }
        } else {
            match cached {
                Some((payload, _)) => Next::Stale { payload },
                None => Next::Fail { error: outcome.error() },
            }
        },
    }
}

/// With a stale entry in the cache and a transport or a server that fails
/// every time in a way that may be retried, a request makes exactly two
/// attempts and then serves the stale payload.
pub proof fn lemma_retry_then_stale(payload: Vec<u8>, first: Attempt, second: Attempt)
    requires
        first.may_retry(),
        second is Status || second is Transport,
    ensures
        start_of(Some((payload, false))) == Next::Send,
        after_attempt(Some((payload, false)), 1, first) == (Next::Retry {
            millis: backoff_millis(1),
        }),
        after_attempt(Some((payload, false)), 2, second) == (Next::Stale { payload }),
{
}

/// With nothing in the cache and a transport or a server that fails every
/// time in a way that may be retried, a request makes exactly two attempts
/// and then fails with the error of the second.
pub proof fn lemma_retry_then_fail(first: Attempt, second: Attempt)
    requires
        first.may_retry(),
        second is Status || second is Transport,
    ensures
        start_of(None) == Next::Send,
        after_attempt(None, 1, first) == (Next::Retry { millis: backoff_millis(1) }),
        after_attempt(None, 2, second) == (Next::Fail { error: second.error() }),
{
}

/// One request on its way from the first attempt to its result.
pub struct Fetch {
    cached: Option<(Vec<u8>, bool)>,
    attempt: u32,
}

impl Fetch {
    /// The entry that is held back to be served if every attempt fails.
    pub closed spec fn cached(&self) -> Option<(Vec<u8>, bool)> {
        self.cached
    }

    /// The number of attempts made so far.
    pub closed spec fn attempts(&self) -> u32 {
        self.attempt
    }

    /// Begins a request with what the cache returned for its key. A fresh
    /// entry ends it at once; anything else calls for an attempt, and a stale
    /// entry is held back.
    pub fn begin(cached: Option<(Vec<u8>, bool)>) -> (r: (Fetch, Next))
        ensures
            r.0.attempts() == 0,
            r.0.cached() == if start_of(cached) is Send {
                cached
            } else {
                None
            },
            r.1 == start_of(cached),
    {
        match cached {
            Some((payload, true)) => (Fetch { cached: None, attempt: 0 }, Next::Fresh { payload }),
            other => (Fetch { cached: other, attempt: 0 }, Next::Send),
        }
    }

    /// The number of attempts made so far.
    pub fn attempts_made(&self) -> (n: u32)
        ensures
            n == self.attempts(),
    {
        self.attempt
    }

    /// Takes in what an attempt came to and says what follows it. The entry
    /// that was held back leaves with the answer that serves it.
    pub fn on_attempt(&mut self, outcome: Attempt) -> (next: Next)
        ensures
            final(self).attempts() == if old(self).attempts() < u32::MAX {
                (old(self).attempts() + 1) as u32
            } else {
                u32::MAX
            },
            next == after_attempt(old(self).cached(), final(self).attempts(), outcome),
            final(self).cached() == if next is Stale {
                None
            } else {
                old(self).cached()
            },
    {
        if self.attempt < u32::MAX {
            self.attempt = self.attempt + 1;
        }
        let attempt = self.attempt;
        match outcome {
            Attempt::Success { body } => Next::Store { payload: body },
            Attempt::Body { message } => Next::Fail { error: FetchError::Body { message } },
            Attempt::Status { code } => {
                if attempt < MAX_ATTEMPTS {
                    Next::Retry { millis: backoff(attempt) }
                } else {
                    match self.cached.take() {
                        Some((payload, _)) => Next::Stale { payload },
                        None => Next::Fail { error: FetchError::Status { code } },
                    }
                }
            },
            Attempt::Transport { retryable, message } => {
                if attempt < MAX_ATTEMPTS && retryable {
                    Next::Retry { millis: backoff(attempt) }
                } else {
                    match self.cached.take() {
                        Some((payload, _)) => Next::Stale { payload },
                        None => Next::Fail { error: FetchError::Transport { message } },
                    }
                }
            },
        }
    }
}

/// The address of the list of heroes.
pub open spec fn heroes_url_text(base: Seq<char>) -> Seq<char> {
    base + "/heroStats"@
}

/// The address of a player's profile.
pub open spec fn profile_url_text(base: Seq<char>, account_id: u32) -> Seq<char> {
    base + "/players/"@ + decimal(account_id as nat)
}

/// The address of a player's recent matches.
pub open spec fn recent_matches_url_text(base: Seq<char>, account_id: u32) -> Seq<char> {
    profile_url_text(base, account_id) + "/recentMatches"@
}

/// The address of a player's matches, which takes a query and stands in
/// where the recent matches cannot be had.
pub open spec fn matches_url_text(base: Seq<char>, account_id: u32) -> Seq<char> {
    profile_url_text(base, account_id) + "/matches"@
}

/// The address of the detail of a match.
pub open spec fn match_detail_url_text(base: Seq<char>, match_id: u64) -> Seq<char> {
    base + "/matches/"@ + decimal(match_id as nat)
}

/// The address of the constant table of heroes.
pub open spec fn hero_constants_url_text(base: Seq<char>) -> Seq<char> {
    base + "/constants/heroes"@
}

/// The address of the constant table of items.
pub open spec fn item_constants_url_text(base: Seq<char>) -> Seq<char> {
    base + "/constants/items"@
}

pub fn heroes_url(base_url: &str) -> (url: String)
    ensures
        url@ == heroes_url_text(base_url@),
{
    crate::text::concat(base_url, "/heroStats")
}

fn numbered_url(base_url: &str, path: &str, id: u64, tail: &str) -> (url: String)
    ensures
        url@ == base_url@ + path@ + decimal(id as nat) + tail@,
{
    let mut out: Vec<char> = Vec::new();
    push_str(base_url, &mut out);
    push_str(path, &mut out);
    push_decimal(id, &mut out);
    push_str(tail, &mut out);
    assert(out@ =~= base_url@ + path@ + decimal(id as nat) + tail@);
    string_from_chars(&out)
}

pub fn profile_url(base_url: &str, account_id: u32) -> (url: String)
    ensures
        url@ == profile_url_text(base_url@, account_id),
{
    let url = numbered_url(base_url, "/players/", account_id as u64, "");
    proof {
        reveal_strlit("");
        assert(url@ =~= profile_url_text(base_url@, account_id));
    }
    url
}

pub fn recent_matches_url(base_url: &str, account_id: u32) -> (url: String)
    ensures
        url@ == recent_matches_url_text(base_url@, account_id),
{
    numbered_url(base_url, "/players/", account_id as u64, "/recentMatches")
}

pub fn matches_url(base_url: &str, account_id: u32) -> (url: String)
    ensures
        url@ == matches_url_text(base_url@, account_id),
{
    numbered_url(base_url, "/players/", account_id as u64, "/matches")
}

pub fn match_detail_url(base_url: &str, match_id: u64) -> (url: String)
    ensures
        url@ == match_detail_url_text(base_url@, match_id),
{
    let url = numbered_url(base_url, "/matches/", match_id, "");
    proof {
        reveal_strlit("");
        assert(url@ =~= match_detail_url_text(base_url@, match_id));
    }
    url
}

pub fn hero_constants_url(base_url: &str) -> (url: String)
    ensures
        url@ == hero_constants_url_text(base_url@),
{
    crate::text::concat(base_url, "/constants/heroes")
}

pub fn item_constants_url(base_url: &str) -> (url: String)
    ensures
        url@ == item_constants_url_text(base_url@),
{
    crate::text::concat(base_url, "/constants/items")
}

/// The query that goes with a player's matches where they stand in for the
/// recent matches: twenty of them, the insignificant ones included.
pub open spec fn is_fallback_query(query: Seq<(&'static str, String)>) -> bool {
    &&& query.len() == 2
    &&& query[0].0@ == "limit"@
    &&& query[0].1@ == "20"@
    &&& query[1].0@ == "significant"@
    &&& query[1].1@ == "0"@
}

pub fn matches_fallback_query() -> (query: Vec<(&'static str, String)>)
    ensures
        is_fallback_query(query@),
{
    let mut query: Vec<(&'static str, String)> = Vec::new();
    query.push(("limit", crate::text::owned("20")));
    query.push(("significant", crate::text::owned("0")));
    query
}

/// What follows the request for a player's recent matches.
pub enum MatchesStep {
    /// The request went through: its matches are the result.
    Done,
    /// The request failed for good: the player's matches are asked for at
    /// this address with this query, and whatever that comes to is the
    /// result.
    Fallback { url: String, query: Vec<(&'static str, String)> },
}

/// Says what follows the request for a player's recent matches, given
/// whether it failed after its retries and without a stale entry to serve.
pub fn after_recent_matches(base_url: &str, account_id: u32, failed: bool) -> (step: MatchesStep)
    ensures
        match step {
            MatchesStep::Done => !failed,
            MatchesStep::Fallback { url, query } => failed && url@ == matches_url_text(
                base_url@,
                account_id,
            ) && is_fallback_query(query@),
        },
{
    if failed {
        MatchesStep::Fallback {
            url: matches_url(base_url, account_id),
            query: matches_fallback_query(),
        }
    } else {
        MatchesStep::Done
    }
}

/// The names of `heroes` by id; of two heroes with one id the later counts.
pub open spec fn names_by_id(heroes: Seq<HeroStat>) -> Map<i32, String>
    decreases heroes.len(),
{
    if heroes.len() == 0 {
        Map::empty()
    } else {
        names_by_id(heroes.drop_last()).insert(heroes.last().id, heroes.last().localized_name)
    }
}

/// The heroes of the constant table by id; of two with one id the later
/// counts.
pub open spec fn heroes_by_id(heroes: Seq<HeroConstant>) -> Map<i32, HeroConstant>
    decreases heroes.len(),
{
    if heroes.len() == 0 {
        Map::empty()
    } else {
        heroes_by_id(heroes.drop_last()).insert(heroes.last().id, heroes.last())
    }
}

/// The items of the constant table by id, without the item of id zero, which
/// stands for an empty slot; of two with one id the later counts.
pub open spec fn items_by_id(items: Seq<ItemConstant>) -> Map<i32, ItemConstant>
    decreases items.len(),
{
    if items.len() == 0 {
        Map::empty()
    } else if items.last().id == 0 {
        items_by_id(items.drop_last())
    } else {
        items_by_id(items.drop_last()).insert(items.last().id, items.last())
    }
}

/// No item is kept under id zero.
pub proof fn lemma_no_empty_slot(items: Seq<ItemConstant>)
    ensures
        !items_by_id(items).contains_key(0),
    decreases items.len(),
{
    if items.len() > 0 {
        lemma_no_empty_slot(items.drop_last());
    }
}

/// Keys the list of heroes by id.
pub fn index_hero_names(heroes: Vec<HeroStat>) -> (names: HashMap<i32, String>)
    ensures
        names@ == names_by_id(heroes@),
{
    let mut names: HashMap<i32, String> = HashMap::new();
    let ghost all = heroes@;
    assert(all.take(0) =~= Seq::<HeroStat>::empty());
    for hero in it: heroes
        invariant
            it.seq() == all,
            names@ == names_by_id(all.take(it.index() as int)),
    {
        proof {
            let n = it.index() as int;
            assert(all.take(n + 1).drop_last() =~= all.take(n));
            assert(all.take(n + 1).last() == hero);
        }
        names.insert(hero.id, hero.localized_name);
    }
    assert(all.take(all.len() as int) =~= all);
    names
}

/// Keys the constant table of heroes by id.
pub fn index_hero_constants(heroes: Vec<HeroConstant>) -> (table: HashMap<i32, HeroConstant>)
    ensures
        table@ == heroes_by_id(heroes@),
{
    let mut table: HashMap<i32, HeroConstant> = HashMap::new();
    let ghost all = heroes@;
    assert(all.take(0) =~= Seq::<HeroConstant>::empty());
    for hero in it: heroes
        invariant
            it.seq() == all,
            table@ == heroes_by_id(all.take(it.index() as int)),
    {
        proof {
            let n = it.index() as int;
            assert(all.take(n + 1).drop_last() =~= all.take(n));
            assert(all.take(n + 1).last() == hero);
        }
        table.insert(hero.id, hero);
    }
    assert(all.take(all.len() as int) =~= all);
    table
}

/// Keys the constant table of items by id and leaves out the empty slot.
pub fn index_item_constants(items: Vec<ItemConstant>) -> (table: HashMap<i32, ItemConstant>)
    ensures
        table@ == items_by_id(items@),
{
    let mut table: HashMap<i32, ItemConstant> = HashMap::new();
    let ghost all = items@;
    assert(all.take(0) =~= Seq::<ItemConstant>::empty());
    for item in it: items
        invariant
            it.seq() == all,
            table@ == items_by_id(all.take(it.index() as int)),
    {
        proof {
            let n = it.index() as int;
            assert(all.take(n + 1).drop_last() =~= all.take(n));
            assert(all.take(n + 1).last() == item);
        }
        if item.id != 0 {
            table.insert(item.id, item);
        }
    }
    assert(all.take(all.len() as int) =~= all);
    table
}

/// The line of the request log for an attempt that the server answered.
pub open spec fn status_log_text(key: Seq<char>, status: Seq<char>, elapsed_ms: u128) -> Seq<char> {
    "GET "@ + key + " status="@ + status + " elapsed_ms="@ + decimal(elapsed_ms as nat)
}

/// The line of the request log for an attempt that got no answer.
pub open spec fn error_log_text(key: Seq<char>, error: Seq<char>, attempt: u32) -> Seq<char> {
    "GET "@ + key + " error=\""@ + error + "\" attempt="@ + decimal(attempt as nat)
}

pub fn log_status_line(key: &str, status: &str, elapsed_ms: u128) -> (line: String)
    ensures
        line@ == status_log_text(key@, status@, elapsed_ms),
{
    let mut out: Vec<char> = Vec::new();
    push_str("GET ", &mut out);
    push_str(key, &mut out);
    push_str(" status=", &mut out);
    push_str(status, &mut out);
    push_str(" elapsed_ms=", &mut out);
    crate::text::push_decimal_wide(elapsed_ms, &mut out);
    assert(out@ =~= status_log_text(key@, status@, elapsed_ms));
    string_from_chars(&out)
}

pub fn log_error_line(key: &str, error: &str, attempt: u32) -> (line: String)
    ensures
        line@ == error_log_text(key@, error@, attempt),
{
    let mut out: Vec<char> = Vec::new();
    push_str("GET ", &mut out);
    push_str(key, &mut out);
    push_str(" error=\"", &mut out);
    push_str(error, &mut out);
    push_str("\" attempt=", &mut out);
    push_decimal(attempt as u64, &mut out);
    assert(out@ =~= error_log_text(key@, error@, attempt));
    string_from_chars(&out)
}

/// The line of the request log for a stale entry that is served.
pub fn log_stale_line(key: &str) -> (line: String)
    ensures
        line@ == "using_stale_cache "@ + key@,
{
    crate::text::concat("using_stale_cache ", key)
}

/// The line of the request log for a wait on the limiter.
pub fn log_wait_line(waited_ms: u64) -> (line: String)
    ensures
        line@ == "rate_limit_wait_ms="@ + decimal(waited_ms as nat),
{
    let mut out: Vec<char> = Vec::new();
    push_str("rate_limit_wait_ms=", &mut out);
    push_decimal(waited_ms, &mut out);
    string_from_chars(&out)
}

/// The line of the request log for matches that are asked for a second way.
pub fn log_fallback_line(account_id: u32) -> (line: String)
    ensures
        line@ == "fallback matches for account_id="@ + decimal(account_id as nat),
{
    let mut out: Vec<char> = Vec::new();
    push_str("fallback matches for account_id=", &mut out);
    push_decimal(account_id as u64, &mut out);
    string_from_chars(&out)
}

} // verus!
