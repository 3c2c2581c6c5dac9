//! Hot-path relay configuration caches: one slot per setting, each with a
//! time-to-live.  `put` writes through; a miss is back-filled without
//! overwriting a value that is still fresh.  Times are milliseconds on a
//! monotonic clock supplied by the caller.

use vstd::prelude::*;

verus! {

/// How long a cached value stays fresh.
pub const CACHE_TTL_MS: u64 = 60_000;

/// Name of the plugin whose switch the HA cache holds.
pub const HA_PLUGIN_NAME: &'static str = "high_availability_channel";

/// Time elapsed from `at` to `now`, zero when `now` lies before `at`.
pub open spec fn elapsed(at: u64, now: u64) -> int {
    if now >= at {
        now - at
    } else {
        0
    }
}

/// A value stored at `at` is still fresh at `now`.
pub open spec fn is_fresh(at: u64, now: u64) -> bool {
    elapsed(at, now) < CACHE_TTL_MS
}

/// What a read of slot state `s` gives at `now`.
pub open spec fn lookup<T>(s: Option<(T, u64)>, now: u64) -> Option<T> {
    match s {
        Some((v, at)) => if is_fresh(at, now) {
            Some(v)
        } else {
            None
        },
        None => None,
    }
}

/// Slot state after a back-fill of `v` at `now`: a fresh value stays.
pub open spec fn filled<T>(s: Option<(T, u64)>, v: T, now: u64) -> Option<(T, u64)> {
    if lookup(s, now) is Some {
        s
    } else {
        Some((v, now))
    }
}

/// One cached value with the time it was stored.
pub struct TtlCell<T> {
    pub value: T,
    pub at_ms: u64,
}

/// A cache slot: empty, or one value with its store time.
pub struct CacheSlot<T> {
    cell: Option<TtlCell<T>>,
}

impl<T> View for CacheSlot<T> {
    type V = Option<(T, u64)>;

    closed spec fn view(&self) -> Option<(T, u64)> {
        match self.cell {
            Some(c) => Some((c.value, c.at_ms)),
            None => None,
        }
    }
}

fn fresh_at(at_ms: u64, now_ms: u64) -> (r: bool)
    ensures
        r == is_fresh(at_ms, now_ms),
{
    let elapsed = if now_ms >= at_ms {
        now_ms - at_ms
    } else {
        0
    };
    elapsed < CACHE_TTL_MS
}

impl<T> CacheSlot<T> {
    /// An empty slot.
    pub fn new() -> (r: Self)
        ensures
            r@ is None,
    {
        CacheSlot { cell: None }
    }

    /// Stores `value` at `now_ms`, replacing whatever was there.
    pub fn put(&mut self, value: T, now_ms: u64)
        ensures
            final(self)@ == Some((value, now_ms)),
    {
        self.cell = Some(TtlCell { value, at_ms: now_ms });
    }

    /// Empties the slot.
    pub fn clear(&mut self)
        ensures
            final(self)@ is None,
    {
        self.cell = None;
    }
}

impl<T: Clone> CacheSlot<T> {
    /// The stored value when it is still fresh at `now_ms`.
    pub fn get(&self, now_ms: u64) -> (r: Option<T>)
        ensures
            r is Some == lookup(self@, now_ms) is Some,
            r is Some ==> cloned(lookup(self@, now_ms)->0, r->0),
    {
        match &self.cell {
            Some(c) => {
                if fresh_at(c.at_ms, now_ms) {
                    Some(c.value.clone())
                } else {
                    None
                }
            },
            None => None,
        }
    }

    /// Back-fills `value` after a miss: a value that is still fresh is kept
    /// and returned; otherwise `value` is stored at `now_ms` and returned.
    pub fn fill_miss(&mut self, value: T, now_ms: u64) -> (r: T)
        ensures
            final(self)@ == filled(old(self)@, value, now_ms),
            lookup(old(self)@, now_ms) matches Some(v) ==> cloned(v, r),
            lookup(old(self)@, now_ms) is None ==> cloned(value, r),
    {
        if let Some(c) = &self.cell {
            if fresh_at(c.at_ms, now_ms) {
                return c.value.clone();
            }
        }
        let out = value.clone();
        self.cell = Some(TtlCell { value, at_ms: now_ms });
        out
    }
}

/// A value read back within the time-to-live of its `put` is the value
/// that was put.
pub proof fn law_get_after_put<T>(v: T, t: u64, later: u64)
    requires
        t <= later < t + CACHE_TTL_MS,
    ensures
        lookup(Some((v, t)), later) == Some(v),
{
}

/// Once the time-to-live has passed, a read misses.
pub proof fn law_expired_misses<T>(v: T, t: u64, later: u64)
    requires
        later >= t + CACHE_TTL_MS,
    ensures
        lookup(Some((v, t)), later) is None,
{
}

/// A back-fill never overwrites a value that is still fresh, and after any
/// back-fill the slot reads as fresh at that time.
pub proof fn law_fill_keeps_fresh<T>(s: Option<(T, u64)>, v: T, now: u64)
    ensures
        lookup(s, now) is Some ==> filled(s, v, now) == s,
        lookup(filled(s, v, now), now) is Some,
        lookup(s, now) is None ==> lookup(filled(s, v, now), now) == Some(v),
{
}

/// A cleared slot misses at every time.
pub proof fn law_cleared_misses<T>(now: u64)
    ensures
        lookup(None::<(T, u64)>, now) is None,
{
}

/// The relay caches: relay settings, the site time zone and the HA switch.
pub struct RelayCaches<R> {
    pub relay_settings: CacheSlot<R>,
    pub site_timezone: CacheSlot<String>,
    pub ha_enabled: CacheSlot<bool>,
}

impl<R> RelayCaches<R> {
    /// All three slots empty.
    pub fn new() -> (r: Self)
        ensures
            r.relay_settings@ is None,
            r.site_timezone@ is None,
            r.ha_enabled@ is None,
    {
        RelayCaches { relay_settings: CacheSlot::new(), site_timezone: CacheSlot::new(), ha_enabled: CacheSlot::new() }
    }
}

/// Writes the relay settings through to their slot.
pub fn put_cached_relay_settings<R>(caches: &mut RelayCaches<R>, settings: R, now_ms: u64)
    ensures
        final(caches).relay_settings@ == Some((settings, now_ms)),
        final(caches).site_timezone@ == old(caches).site_timezone@,
        final(caches).ha_enabled@ == old(caches).ha_enabled@,
{
    caches.relay_settings.put(settings, now_ms);
}

/// Writes the site time zone through to its slot.
pub fn put_cached_site_timezone<R>(caches: &mut RelayCaches<R>, tz: &str, now_ms: u64)
    ensures
        final(caches).site_timezone@ matches Some((v, at)) && v@ == tz@ && at == now_ms,
        final(caches).relay_settings@ == old(caches).relay_settings@,
        final(caches).ha_enabled@ == old(caches).ha_enabled@,
{
    caches.site_timezone.put(crate::text::to_owned_string(tz), now_ms);
}

/// Writes the HA plugin switch through to its slot.
pub fn put_cached_ha_enabled<R>(caches: &mut RelayCaches<R>, enabled: bool, now_ms: u64)
    ensures
        final(caches).ha_enabled@ == Some((enabled, now_ms)),
        final(caches).relay_settings@ == old(caches).relay_settings@,
        final(caches).site_timezone@ == old(caches).site_timezone@,
{
    caches.ha_enabled.put(enabled, now_ms);
}

/// Empties every slot.
pub fn invalidate_all<R>(caches: &mut RelayCaches<R>)
    ensures
        final(caches).relay_settings@ is None,
        final(caches).site_timezone@ is None,
        final(caches).ha_enabled@ is None,
{
    caches.relay_settings.clear();
    caches.site_timezone.clear();
    caches.ha_enabled.clear();
}


/// A value put while a load is running wins: a back-fill made while the put
/// value is fresh keeps it (the loaded value is dropped), and every read
/// while it is fresh gives it.
pub proof fn law_put_wins_over_load<T>(s: T, loaded: T, put_at: u64, fill_at: u64, read_at: u64)
    requires
        is_fresh(put_at, fill_at),
        is_fresh(put_at, read_at),
    ensures
        filled(Some((s, put_at)), loaded, fill_at) == Some((s, put_at)),
        lookup(filled(Some((s, put_at)), loaded, fill_at), read_at) == Some(s),
{
}

} // verus!
