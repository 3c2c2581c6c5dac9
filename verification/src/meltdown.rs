//! The HA meltdown table: sub-channels blocked until a deadline after a
//! failure, kept in a concurrent map.
use vstd::prelude::*;
use dashmap::DashMap;
use crate::ha::{HaConfig, cooldown_for, cooldown_secs, is_ha_aid, is_ha_aid_model, keyword_match, match_err_keywords};

verus! {

#[verifier::external_type_specification]
#[verifier::external_body]
#[verifier::reject_recursive_types(K)]
#[verifier::reject_recursive_types(V)]
#[verifier::reject_recursive_types(S)]
pub struct ExDashMap<K, V, S>(DashMap<K, V, S>);

/// The entries of a meltdown map: sub-channel id → blocked-until time (ms).
pub uninterp spec fn table_entries(m: DashMap<String, u64>) -> Map<Seq<char>, u64>;

/// The map with no entries.
pub open spec fn no_entries() -> Map<Seq<char>, u64> {
    Map::empty()
}

/// `DashMap::new`: an empty map.
#[verifier::external_body]
pub(crate) fn table_new() -> (r: DashMap<String, u64>)
    ensures
        table_entries(r) == no_entries(),
{
    DashMap::new()
}

/// `DashMap::get`, copying the value out.
#[verifier::external_body]
pub(crate) fn table_get(m: &DashMap<String, u64>, key: &str) -> (r: Option<u64>)
    ensures
        r == (if table_entries(*m).dom().contains(key@) {
            Some(table_entries(*m)[key@])
        } else {
            None
        }),
{
    m.get(key).map(|e| *e.value())
}

/// `DashMap::insert`.
#[verifier::external_body]
pub(crate) fn table_insert(m: &mut DashMap<String, u64>, key: String, value: u64)
    ensures
        table_entries(*final(m)) == table_entries(*old(m)).insert(key@, value),
    no_unwind
{
    m.insert(key, value);
}

/// `DashMap::remove`.
#[verifier::external_body]
pub(crate) fn table_remove(m: &mut DashMap<String, u64>, key: &str)
    ensures
        table_entries(*final(m)) == table_entries(*old(m)).remove(key@),
    no_unwind
{
    m.remove(key);
}


/// The entries still blocked at `now`.
pub open spec fn unexpired(m: Map<Seq<char>, u64>, now: u64) -> Map<Seq<char>, u64> {
    Map::new(|k: Seq<char>| m.dom().contains(k) && m[k] > now, |k: Seq<char>| m[k])
}

/// An entry blocked until `until` is still blocked at `now`.
pub fn still_blocked(until: u64, now: u64) -> (r: bool)
    ensures
        r == (until > now),
{
    until > now
}

/// `DashMap::retain` keeping the entries still blocked at `now`.
#[verifier::external_body]
pub(crate) fn table_retain_unexpired(m: &mut DashMap<String, u64>, now: u64)
    ensures
        table_entries(*final(m)) == unexpired(table_entries(*old(m)), now),
    no_unwind
{
    m.retain(|_, until| still_blocked(*until, now));
}

/// `DashMap::len`: the number of entries.
#[verifier::external_body]
pub(crate) fn table_len(m: &DashMap<String, u64>) -> (r: usize)
    ensures
        r as nat == table_entries(*m).len(),
{
    m.len()
}

/// `DashMap::clear`.
#[verifier::external_body]
pub(crate) fn table_clear(m: &mut DashMap<String, u64>)
    ensures
        table_entries(*final(m)) == no_entries(),
    no_unwind
{
    m.clear();
}

/// Above this many live entries a scrub empties the whole table.
pub const FAILED_CHANNELS_SOFT_CAP: usize = 4096;

/// Above this many entries every meltdown also scrubs.
pub const SCRUB_SIZE_TRIGGER: usize = 2048;

/// Every this many meltdowns a scrub runs.
pub const SCRUB_PERIOD: u64 = 32;

/// The table and meltdown count after a meltdown of `aid`: nothing happens
/// to a non-HA id or a whitelisted message; otherwise the id is blocked for
/// the status's cooldown (when positive), the count advances (wrapping), and
/// every 32nd meltdown, or a table above 2048 entries, scrubs the table.
pub open spec fn meltdown_effect(
    m: Map<Seq<char>, u64>,
    count: u64,
    cfg: &HaConfig,
    aid: Seq<char>,
    status: u16,
    msg: Seq<char>,
    now: u64,
) -> (Map<Seq<char>, u64>, u64) {
    let skip = !is_ha_aid_model(aid) || keyword_match(msg, cfg.meltdown_whitelist.deep_view()) is Some;
    let cd = cooldown_for(cfg, status);
    let blocked = if cd > 0 {
        m.insert(aid, (now + cd * 1000) as u64)
    } else {
        m
    };
    if skip {
        (m, count)
    } else {
        (
            if count % SCRUB_PERIOD == 0 || blocked.len() > SCRUB_SIZE_TRIGGER {
                scrubbed(blocked, now)
            } else {
                blocked
            },
            if count == u64::MAX {
                0
            } else {
                (count + 1) as u64
            },
        )
    }
}

/// Sub-channels melted down after a failure, each blocked until a deadline.
pub struct MeltdownTable {
    entries: DashMap<String, u64>,
    triggers: u64,
}

/// What a scrub leaves of `m` at `now`: the unexpired entries, or nothing
/// when more than the soft cap remain.
pub open spec fn scrubbed(m: Map<Seq<char>, u64>, now: u64) -> Map<Seq<char>, u64> {
    let kept = unexpired(m, now);
    if kept.len() > FAILED_CHANNELS_SOFT_CAP {
        no_entries()
    } else {
        kept
    }
}

proof fn lemma_unexpired_finite(m: Map<Seq<char>, u64>, now: u64)
    requires
        m.dom().finite(),
    ensures
        unexpired(m, now).dom().finite(),
        unexpired(m, now).len() <= m.len(),
{
    assert(unexpired(m, now).dom().subset_of(m.dom()));
    vstd::set_lib::lemma_len_subset(unexpired(m, now).dom(), m.dom());
}

impl View for MeltdownTable {
    type V = Map<Seq<char>, u64>;

    closed spec fn view(&self) -> Map<Seq<char>, u64> {
        table_entries(self.entries)
    }
}

impl MeltdownTable {
    #[verifier::type_invariant]
    closed spec fn finite(self) -> bool {
        table_entries(self.entries).dom().finite()
    }

    /// How many meltdowns were triggered (modulo 2^64).
    pub closed spec fn trigger_count(&self) -> u64 {
        self.triggers
    }

    /// An empty table.
    pub fn new() -> (r: Self)
        ensures
            r@ == no_entries(),
            r.trigger_count() == 0,
    {
        MeltdownTable { entries: table_new(), triggers: 0 }
    }

    /// Number of entries.
    pub fn len(&self) -> (r: usize)
        ensures
            r as nat == self@.len(),
    {
        table_len(&self.entries)
    }

    /// Melts HA sub-channel `group_aid` down after a failure with `status`:
    /// unless the message matches the whitelist, the sub-channel is blocked
    /// for the status's cooldown (when positive).  Every 32nd meltdown, or
    /// when the table is large, expired entries are scrubbed.
    pub fn trigger_ha_meltdown(
        &mut self,
        cfg: &HaConfig,
        group_aid: &str,
        status_code: u16,
        error_message: &str,
        now_ms: u64,
    )
        requires
            cooldown_for(cfg, status_code) > 0 ==> now_ms + cooldown_for(cfg, status_code) * 1000
                <= u64::MAX,
        ensures
            (final(self)@, final(self).trigger_count()) == meltdown_effect(
                old(self)@,
                old(self).trigger_count(),
                cfg,
                group_aid@,
                status_code,
                error_message@,
                now_ms,
            ),
    {
        proof {
            use_type_invariant(&*self);
        }
        if !is_ha_aid(group_aid) {
            return;
        }
        if match_err_keywords(error_message, &cfg.meltdown_whitelist).is_some() {
            return;
        }
        let cooldown = cooldown_secs(cfg, status_code);
        if cooldown > 0 {
            let until: u64 = now_ms + (cooldown as u64) * 1000;
            table_insert(&mut self.entries, crate::text::to_owned_string(group_aid), until);
        }
        let n = self.triggers;
        self.triggers = if n == u64::MAX {
            0
        } else {
            n + 1
        };
        let len = table_len(&self.entries);
        if n % SCRUB_PERIOD == 0 || len > SCRUB_SIZE_TRIGGER {
            scrub_failed_channels(self, now_ms);
        }
    }
}

/// A melted-down sub-channel stays blocked for its whole cooldown: right
/// after a meltdown with a positive cooldown, the sub-channel reads as
/// melted down at every time before the deadline, provided the table holds
/// no more than the soft cap of live entries (a fuller table is emptied).
/// Whether `aid` is blocked at `now_ms`; an expired entry is dropped.
pub fn is_melted_down(table: &mut MeltdownTable, aid: &str, now_ms: u64) -> (r: bool)
    ensures
        r == (old(table)@.dom().contains(aid@) && old(table)@[aid@] > now_ms),
        final(table)@ == (if r {
            old(table)@
        } else {
            old(table)@.remove(aid@)
        }),
        final(table).trigger_count() == old(table).trigger_count(),
{
    proof {
        use_type_invariant(&*table);
    }
    match table_get(&table.entries, aid) {
        Some(until) => {
            if until > now_ms {
                true
            } else {
                table_remove(&mut table.entries, aid);
                false
            }
        },
        None => {
            proof {
                assert(table_entries(table.entries).remove(aid@) =~= table_entries(table.entries));
            }
            false
        },
    }
}

/// Drops expired entries; empties the table when more than the soft cap
/// remain.
pub fn scrub_failed_channels(table: &mut MeltdownTable, now_ms: u64)
    ensures
        final(table)@ == scrubbed(old(table)@, now_ms),
        final(table).trigger_count() == old(table).trigger_count(),
{
    proof {
        use_type_invariant(&*table);
        lemma_unexpired_finite(table_entries(table.entries), now_ms);
    }
    table_retain_unexpired(&mut table.entries, now_ms);
    let n = table_len(&table.entries);
    if n > FAILED_CHANNELS_SOFT_CAP {
        table_clear(&mut table.entries);
    }
}


pub proof fn law_meltdown_blocks_until_deadline(
    before: Map<Seq<char>, u64>,
    aid: Seq<char>,
    until: u64,
    now: u64,
    later: u64,
)
    requires
        before.dom().finite(),
        now <= later < until,
        unexpired(before.insert(aid, until), now).len() <= FAILED_CHANNELS_SOFT_CAP,
    ensures
        ({
            let blocked = before.insert(aid, until);
            let after = scrubbed(blocked, now);
            after.dom().contains(aid) && after[aid] > later
        }),
{
    let blocked = before.insert(aid, until);
    assert(unexpired(blocked, now).dom().contains(aid));
}

} // verus!
