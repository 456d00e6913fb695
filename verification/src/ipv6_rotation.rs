//! IPv6 source-address rotation: a cached pool of global IPv6 addresses,
//! refreshed when older than a time-to-live, from which a random address is
//! handed out.
//!
//! Times are milliseconds on a monotonic clock chosen by the caller; the
//! network-interface enumeration is done by the caller, which hands the
//! interface addresses to [`IPv6AddressPool::refresh_from`].

use vstd::prelude::*;
use rand::prelude::IndexedRandom;

verus! {

/// How often the address cache is refreshed, in seconds (5 minutes).
pub const CACHE_TTL_SECS: u64 = 300;

/// Fewer addresses than this still rotate, but rotation is less effective.
pub const MIN_EFFECTIVE_ROTATION_ADDRESSES: usize = 10;

/// The loopback address `::1`.
pub open spec fn is_loopback(s: Seq<u16>) -> bool {
    s =~= seq![0u16, 0u16, 0u16, 0u16, 0u16, 0u16, 0u16, 1u16]
}

/// The unspecified address `::`.
pub open spec fn is_unspecified(s: Seq<u16>) -> bool {
    s =~= seq![0u16, 0u16, 0u16, 0u16, 0u16, 0u16, 0u16, 0u16]
}

/// Multicast `ff00::/8`.
pub open spec fn is_multicast(s: Seq<u16>) -> bool {
    s[0] & 0xff00 == 0xff00
}

/// A globally routable address: not loopback, multicast, unspecified,
/// link-local (`fe80::/10`), unique local (`fc00::/7`), documentation
/// (`2001:db8::/32`) or Teredo (`2001::/32`).
pub open spec fn is_global_segments(s: Seq<u16>) -> bool {
    &&& !is_loopback(s)
    &&& !is_multicast(s)
    &&& !is_unspecified(s)
    &&& s[0] & 0xffc0 != 0xfe80
    &&& s[0] & 0xfe00 != 0xfc00
    &&& !(s[0] == 0x2001 && s[1] == 0x0db8)
    &&& !(s[0] == 0x2001 && s[1] == 0x0000)
}

/// The address ranges that are not global, by the numeric value of the
/// segments: loopback `::1`, unspecified `::`, unique local `fc00::/7`
/// (first segment 0xfc00..=0xfdff), link-local `fe80::/10` (0xfe80..=0xfebf),
/// multicast `ff00::/8` (0xff00..=0xffff), documentation `2001:db8::/32` and
/// Teredo `2001::/32`.
pub open spec fn in_non_global_range(s: Seq<u16>) -> bool {
    ||| (s[0] == 0 && s[1] == 0 && s[2] == 0 && s[3] == 0 && s[4] == 0 && s[5] == 0 && s[6] == 0 && s[7] <= 1)
    ||| (0xfc00 <= s[0] && s[0] <= 0xfdff)
    ||| (0xfe80 <= s[0] && s[0] <= 0xfebf)
    ||| 0xff00 <= s[0]
    ||| (s[0] == 0x2001 && s[1] == 0x0db8)
    ||| (s[0] == 0x2001 && s[1] == 0x0000)
}

proof fn lemma_prefix_ranges(x: u16)
    ensures
        (x & 0xfe00 == 0xfc00) <==> (0xfc00 <= x && x <= 0xfdff),
        (x & 0xffc0 == 0xfe80) <==> (0xfe80 <= x && x <= 0xfebf),
        (x & 0xff00 == 0xff00) <==> (0xff00 <= x),
{
    assert((x & 0xfe00 == 0xfc00) <==> (0xfc00 <= x && x <= 0xfdff)) by (bit_vector);
    assert((x & 0xffc0 == 0xfe80) <==> (0xfe80 <= x && x <= 0xfebf)) by (bit_vector);
    assert((x & 0xff00 == 0xff00) <==> (0xff00 <= x)) by (bit_vector);
}

/// An eight-segment address is global exactly when it lies in none of the
/// non-global ranges; in particular every unique-local address
/// (`fc00::/7`) is reported as not global.
pub proof fn global_means_outside_reserved_ranges(s: Seq<u16>)
    requires
        s.len() == 8,
    ensures
        is_global_segments(s) <==> !in_non_global_range(s),
        (0xfc00 <= s[0] && s[0] <= 0xfdff) ==> !is_global_segments(s),
{
    lemma_prefix_ranges(s[0]);
    if s[0] == 0 && s[1] == 0 && s[2] == 0 && s[3] == 0 && s[4] == 0 && s[5] == 0 && s[6] == 0 && s[7] <= 1 {
        if s[7] == 1 {
            assert(s =~= seq![0u16, 0u16, 0u16, 0u16, 0u16, 0u16, 0u16, 1u16]);
        } else {
            assert(s =~= seq![0u16, 0u16, 0u16, 0u16, 0u16, 0u16, 0u16, 0u16]);
        }
    }
}

/// Whether the address with these eight 16-bit segments is globally
/// routable (see [`is_global_segments`]).
pub fn is_global_ipv6(segments: &[u16; 8]) -> (r: bool)
    ensures
        r == is_global_segments(segments@),
        r <==> !in_non_global_range(segments@),
{
    proof {
        global_means_outside_reserved_ranges(segments@);
    }
    let s = segments;
    let loopback = s[0] == 0 && s[1] == 0 && s[2] == 0 && s[3] == 0 && s[4] == 0 && s[5] == 0 && s[6] == 0 && s[7] == 1;
    let unspecified = s[0] == 0 && s[1] == 0 && s[2] == 0 && s[3] == 0 && s[4] == 0 && s[5] == 0 && s[6] == 0 && s[7] == 0;
    let multicast = s[0] & 0xff00 == 0xff00;
    proof {
        assert(loopback == is_loopback(segments@)) by {
            if loopback {
                assert(segments@ =~= seq![0u16, 0u16, 0u16, 0u16, 0u16, 0u16, 0u16, 1u16]);
            }
        }
        assert(unspecified == is_unspecified(segments@)) by {
            if unspecified {
                assert(segments@ =~= seq![0u16, 0u16, 0u16, 0u16, 0u16, 0u16, 0u16, 0u16]);
            }
        }
    }
    if loopback || multicast || unspecified {
        return false;
    }
    if (s[0] & 0xffc0) == 0xfe80 {
        return false;
    }
    if (s[0] & 0xfe00) == 0xfc00 {
        return false;
    }
    if s[0] == 0x2001 && s[1] == 0x0db8 {
        return false;
    }
    if s[0] == 0x2001 && s[1] == 0x0000 {
        return false;
    }
    true
}

/// Text form of an IPv6 address given by its segments, as `Ipv6Addr`'s
/// `Display` renders it.
pub uninterp spec fn ipv6_text(segments: Seq<u16>) -> Seq<char>;

/// Calls `core::net::Ipv6Addr::from` on the segments and renders the address
/// with `to_string`; the result is named by `ipv6_text`.
#[verifier::external_body]
fn ipv6_to_string(segments: &[u16; 8]) -> (r: String)
    ensures
        r@ == ipv6_text(segments@),
{
    core::net::Ipv6Addr::from(*segments).to_string()
}

/// Calls `rand::seq::IndexedRandom::choose` on the addresses with the
/// thread-local generator. As its source shows, it returns `None` exactly
/// when the slice is empty and otherwise one of its elements; which one is
/// random.
#[verifier::external_body]
fn choose_address(addresses: &Vec<String>) -> (r: Option<&String>)
    ensures
        r is None <==> addresses@.len() == 0,
        r matches Some(a) ==> exists|i: int| 0 <= i < addresses@.len() && addresses@[i] == *a,
{
    addresses.as_slice().choose(&mut rand::rng())
}

/// Statistics about the address pool.
#[derive(Debug, Clone, Copy, PartialEq, Eq, Structural)]
pub struct IPv6PoolStats {
    /// Number of addresses in the pool.
    pub address_count: usize,
    /// Age of the cache in whole seconds.
    pub cache_age_secs: u64,
    /// Successful requests recorded since the last refresh.
    pub success_count: u64,
    /// Failed requests recorded since the last refresh.
    pub failure_count: u64,
}

/// Global addresses among `candidates`, in order, as text.
pub open spec fn global_texts(candidates: Seq<[u16; 8]>) -> Seq<Seq<char>>
    decreases candidates.len(),
{
    if candidates.len() == 0 {
        Seq::empty()
    } else {
        let rest = global_texts(candidates.drop_last());
        let last = candidates.last();
        if is_global_segments(last@) { rest.push(ipv6_text(last@)) } else { rest }
    }
}

/// Milliseconds elapsed from `since` to `now` (zero if `now` is earlier).
pub open spec fn elapsed_ms(since: i64, now: u64) -> int {
    if now as int >= since as int { now as int - since as int } else { 0 }
}

/// Cached pool of IPv6 addresses.
pub struct IPv6AddressPool {
    addresses: Vec<String>,
    last_refresh_ms: i64,
    success_count: u64,
    failure_count: u64,
}

impl IPv6AddressPool {
    pub closed spec fn address_texts(&self) -> Seq<Seq<char>> {
        self.addresses@.map_values(|s: String| s@)
    }

    pub closed spec fn spec_last_refresh_ms(&self) -> i64 { self.last_refresh_ms }
    pub closed spec fn spec_success_count(&self) -> u64 { self.success_count }
    pub closed spec fn spec_failure_count(&self) -> u64 { self.failure_count }

    /// The cache is stale: more than the time-to-live has elapsed.
    pub open spec fn stale_at(&self, now_ms: u64) -> bool {
        elapsed_ms(self.spec_last_refresh_ms(), now_ms) > CACHE_TTL_SECS * 1000
    }

    /// An empty pool whose cache counts as one second past its time-to-live,
    /// so that the first use refreshes it.
    pub fn new(now_ms: u64) -> (r: Self)
        requires
            now_ms <= i64::MAX,
        ensures
            r.address_texts().len() == 0,
            r.spec_last_refresh_ms() == now_ms - (CACHE_TTL_SECS + 1) * 1000,
            r.spec_success_count() == 0,
            r.spec_failure_count() == 0,
            // From its creation on, a new pool needs a refresh.
            forall|t: u64| t >= now_ms ==> r.stale_at(t),
    {
        let r = IPv6AddressPool {
            addresses: Vec::new(),
            last_refresh_ms: (now_ms as i64) - ((CACHE_TTL_SECS + 1) * 1000) as i64,
            success_count: 0,
            failure_count: 0,
        };
        assert(r.address_texts() =~= Seq::<Seq<char>>::empty());
        r
    }

    /// Whether the cache is older than the time-to-live at `now_ms`.
    pub fn needs_refresh(&self, now_ms: u64) -> (r: bool)
        ensures
            r == self.stale_at(now_ms),
    {
        let now = now_ms as i128;
        let last = self.last_refresh_ms as i128;
        let elapsed = if now >= last { now - last } else { 0 };
        elapsed > (CACHE_TTL_SECS * 1000) as i128
    }

    /// Replaces the pool with the global addresses among the interface
    /// addresses `candidates` (in order, as text), restarts the cache age and
    /// the request counters, which count requests since the last refresh.
    pub fn refresh_from(&mut self, candidates: &Vec<[u16; 8]>, now_ms: u64)
        requires
            now_ms <= i64::MAX,
        ensures
            final(self).address_texts() == global_texts(candidates@),
            final(self).spec_last_refresh_ms() == now_ms,
            final(self).spec_success_count() == 0,
            final(self).spec_failure_count() == 0,
    {
        let mut new_addresses: Vec<String> = Vec::new();
        let mut i: usize = 0;
        while i < candidates.len()
            invariant
                i <= candidates@.len(),
                new_addresses@.map_values(|s: String| s@) == global_texts(candidates@.take(i as int)),
            decreases candidates@.len() - i,
        {
            let c = &candidates[i];
            proof {
                assert(candidates@.take(i as int + 1).drop_last() =~= candidates@.take(i as int));
                assert(candidates@.take(i as int + 1).last() == candidates@[i as int]);
            }
            if is_global_ipv6(c) {
                let t = ipv6_to_string(c);
                new_addresses.push(t);
                assert(new_addresses@.map_values(|s: String| s@) =~= global_texts(candidates@.take(i as int)).push(ipv6_text(c@)));
            }
            i = i + 1;
        }
        assert(candidates@.take(candidates@.len() as int) =~= candidates@);
        self.addresses = new_addresses;
        self.last_refresh_ms = now_ms as i64;
        self.success_count = 0;
        self.failure_count = 0;
    }

    /// A random address from the pool, or `None` when the pool is empty.
    pub fn get_random(&self) -> (r: Option<String>)
        ensures
            r is None <==> self.address_texts().len() == 0,
            r matches Some(a) ==> self.address_texts().contains(a@),
    {
        match choose_address(&self.addresses) {
            None => None,
            Some(a) => {
                let c = a.clone();
                proof {
                    let i = choose|i: int| 0 <= i < self.addresses@.len() && self.addresses@[i] == *a;
                    assert(self.address_texts()[i] == c@);
                }
                Some(c)
            },
        }
    }

    /// Records a successful request.
    pub fn record_success(&mut self)
        requires
            old(self).spec_success_count() < u64::MAX,
        ensures
            final(self).spec_success_count() == old(self).spec_success_count() + 1,
            final(self).spec_failure_count() == old(self).spec_failure_count(),
            final(self).address_texts() == old(self).address_texts(),
            final(self).spec_last_refresh_ms() == old(self).spec_last_refresh_ms(),
    {
        self.success_count = self.success_count + 1;
    }

    /// Records a failed request.
    pub fn record_failure(&mut self)
        requires
            old(self).spec_failure_count() < u64::MAX,
        ensures
            final(self).spec_failure_count() == old(self).spec_failure_count() + 1,
            final(self).spec_success_count() == old(self).spec_success_count(),
            final(self).address_texts() == old(self).address_texts(),
            final(self).spec_last_refresh_ms() == old(self).spec_last_refresh_ms(),
    {
        self.failure_count = self.failure_count + 1;
    }

    /// Current statistics at time `now_ms`.
    pub fn stats(&self, now_ms: u64) -> (r: IPv6PoolStats)
        ensures
            r.address_count == self.address_texts().len(),
            r.cache_age_secs == elapsed_ms(self.spec_last_refresh_ms(), now_ms) / 1000,
            r.success_count == self.spec_success_count(),
            r.failure_count == self.spec_failure_count(),
    {
        let now = now_ms as i128;
        let last = self.last_refresh_ms as i128;
        let elapsed = if now >= last { now - last } else { 0 };
        IPv6PoolStats {
            address_count: self.addresses.len(),
            cache_age_secs: (elapsed / 1000) as u64,
            success_count: self.success_count,
            failure_count: self.failure_count,
        }
    }
}

/// What the global operations see of a pool: its addresses as text, the
/// time of its last refresh, and its success and failure counts.
pub open spec fn pool_state(p: IPv6AddressPool) -> (Seq<Seq<char>>, i64, u64, u64) {
    (p.address_texts(), p.spec_last_refresh_ms(), p.spec_success_count(), p.spec_failure_count())
}

/// State of a pool created at `now_ms` by [`IPv6AddressPool::new`].
pub open spec fn fresh_state(now_ms: u64) -> (Seq<Seq<char>>, i64, u64, u64) {
    (Seq::empty(), (now_ms - (CACHE_TTL_SECS + 1) * 1000) as i64, 0, 0)
}

/// State the global operations start from: the process-wide pool if it
/// exists, otherwise a pool created at `now_ms`.
pub open spec fn start_state(slot: Option<IPv6AddressPool>, now_ms: u64) -> (Seq<Seq<char>>, i64, u64, u64) {
    match slot {
        Some(p) => pool_state(p),
        None => fresh_state(now_ms),
    }
}

/// State after a refresh whose interface enumeration gave `out`: a list of
/// interface addresses replaces the addresses and restarts the cache age and
/// the request counters; a failed enumeration leaves everything as it was.
pub open spec fn refreshed_state(
    st: (Seq<Seq<char>>, i64, u64, u64),
    out: Option<Vec<[u16; 8]>>,
    now_ms: u64,
) -> (Seq<Seq<char>>, i64, u64, u64) {
    match out {
        Some(c) => (global_texts(c@), now_ms as i64, 0, 0),
        None => st,
    }
}

/// The cache of a pool in state `st` is older than the time-to-live.
pub open spec fn state_stale(st: (Seq<Seq<char>>, i64, u64, u64), now_ms: u64) -> bool {
    elapsed_ms(st.1, now_ms) > CACHE_TTL_SECS * 1000
}

impl IPv6AddressPool {
    /// Re-reads the interface addresses through `enumerate` and, when the
    /// enumeration succeeds, replaces the pool with the global ones among
    /// them; on failure the pool is left as it was.
    pub fn refresh<F: FnOnce() -> Option<Vec<[u16; 8]>>>(&mut self, enumerate: F, now_ms: u64)
        requires
            now_ms <= i64::MAX,
            enumerate.requires(()),
        ensures
            exists|out: Option<Vec<[u16; 8]>>| call_ensures(enumerate, (), out)
                && pool_state(*final(self)) == refreshed_state(pool_state(*old(self)), out, now_ms),
    {
        let out = enumerate();
        match out {
            Some(candidates) => {
                self.refresh_from(&candidates, now_ms);
                assert(pool_state(*self) == refreshed_state(pool_state(*old(self)), Some(candidates), now_ms));
            },
            None => {
                assert(pool_state(*self) == refreshed_state(pool_state(*old(self)), None, now_ms));
            },
        }
    }
}

/// The process-wide pool, created at `now_ms` on first use.
fn get_pool(slot: &mut Option<IPv6AddressPool>, now_ms: u64)
    requires
        now_ms <= i64::MAX,
    ensures
        (*final(slot)) is Some,
        pool_state(final(slot).unwrap()) == start_state(*old(slot), now_ms),
        (*old(slot)) is Some ==> *final(slot) == *old(slot),
{
    if slot.is_none() {
        let p = IPv6AddressPool::new(now_ms);
        *slot = Some(p);
    }
}

/// A random global IPv6 address for `--source-address`, from the
/// process-wide pool held in `slot`. The pool is created on first use and
/// refreshed through `enumerate` when its cache is older than the
/// time-to-live; otherwise no enumeration takes place.
pub fn get_random_ipv6_address<F: FnOnce() -> Option<Vec<[u16; 8]>>>(
    slot: &mut Option<IPv6AddressPool>,
    now_ms: u64,
    enumerate: F,
) -> (r: Option<String>)
    requires
        now_ms <= i64::MAX,
        enumerate.requires(()),
    ensures
        (*final(slot)) is Some,
        !state_stale(start_state(*old(slot), now_ms), now_ms) ==>
            pool_state(final(slot).unwrap()) == start_state(*old(slot), now_ms),
        state_stale(start_state(*old(slot), now_ms), now_ms) ==> exists|out: Option<Vec<[u16; 8]>>|
            call_ensures(enumerate, (), out)
            && pool_state(final(slot).unwrap()) == refreshed_state(start_state(*old(slot), now_ms), out, now_ms),
        r is None <==> pool_state(final(slot).unwrap()).0.len() == 0,
        r matches Some(a) ==> pool_state(final(slot).unwrap()).0.contains(a@),
{
    get_pool(slot, now_ms);
    let mut pool = slot.take().unwrap();
    if pool.needs_refresh(now_ms) {
        pool.refresh(enumerate, now_ms);
    }
    let selected = pool.get_random();
    *slot = Some(pool);
    selected
}

/// Records a successful request on the process-wide pool, if it exists.
pub fn record_ipv6_success(slot: &mut Option<IPv6AddressPool>)
    requires
        (*old(slot)) matches Some(p) ==> p.spec_success_count() < u64::MAX,
    ensures
        (*old(slot)) is None ==> (*final(slot)) is None,
        (*old(slot)) matches Some(p) ==> (*final(slot)) is Some && pool_state(final(slot).unwrap())
            == (p.address_texts(), p.spec_last_refresh_ms(), (p.spec_success_count() + 1) as u64, p.spec_failure_count()),
{
    if let Some(mut pool) = slot.take() {
        pool.record_success();
        *slot = Some(pool);
    }
}

/// Records a failed request on the process-wide pool, if it exists.
pub fn record_ipv6_failure(slot: &mut Option<IPv6AddressPool>)
    requires
        (*old(slot)) matches Some(p) ==> p.spec_failure_count() < u64::MAX,
    ensures
        (*old(slot)) is None ==> (*final(slot)) is None,
        (*old(slot)) matches Some(p) ==> (*final(slot)) is Some && pool_state(final(slot).unwrap())
            == (p.address_texts(), p.spec_last_refresh_ms(), p.spec_success_count(), (p.spec_failure_count() + 1) as u64),
{
    if let Some(mut pool) = slot.take() {
        pool.record_failure();
        *slot = Some(pool);
    }
}

/// Statistics of the process-wide pool at `now_ms`, creating it on first use.
pub fn get_ipv6_pool_stats(slot: &mut Option<IPv6AddressPool>, now_ms: u64) -> (r: Option<IPv6PoolStats>)
    requires
        now_ms <= i64::MAX,
    ensures
        (*final(slot)) is Some,
        pool_state(final(slot).unwrap()) == start_state(*old(slot), now_ms),
        r matches Some(st) && st.address_count == start_state(*old(slot), now_ms).0.len()
            && st.cache_age_secs == elapsed_ms(start_state(*old(slot), now_ms).1, now_ms) / 1000
            && st.success_count == start_state(*old(slot), now_ms).2
            && st.failure_count == start_state(*old(slot), now_ms).3,
{
    get_pool(slot, now_ms);
    let pool = slot.take().unwrap();
    let st = pool.stats(now_ms);
    *slot = Some(pool);
    Some(st)
}

/// Refreshes the process-wide pool through `enumerate` now, whatever the
/// age of its cache, creating the pool on first use.
pub fn refresh_ipv6_pool<F: FnOnce() -> Option<Vec<[u16; 8]>>>(
    slot: &mut Option<IPv6AddressPool>,
    now_ms: u64,
    enumerate: F,
)
    requires
        now_ms <= i64::MAX,
        enumerate.requires(()),
    ensures
        (*final(slot)) is Some,
        exists|out: Option<Vec<[u16; 8]>>| call_ensures(enumerate, (), out)
            && pool_state(final(slot).unwrap()) == refreshed_state(start_state(*old(slot), now_ms), out, now_ms),
{
    get_pool(slot, now_ms);
    let mut pool = slot.take().unwrap();
    pool.refresh(enumerate, now_ms);
    *slot = Some(pool);
}

} // verus!
