//! One cycle of the poller: from the outcome of a batched snapshot query to
//! the titles whose pipeline must run and the wait before the next query.

use vstd::prelude::*;
use crate::decimal::{digits_value, i32_text, int_text, is_u64_text, parse_u64, unsigned_digits};
use crate::snapshot::{counter_or_zero, snapshot_counter, VersionSnapshot};
use crate::tracker::{is_update, GameVersionManager};

verus! {

/// Seconds to wait before querying again after a failed query.
pub const RETRY_DELAY_SECS: u64 = 5;

/// Seconds to wait between two completed poll cycles.
pub const POLL_INTERVAL_SECS: u64 = 120;

/// What a poll cycle asks of its runner.
#[derive(Debug, PartialEq, Eq)]
pub struct PollStep {
    /// Positions, in the query's order, of the entries whose title updated.
    pub updated: Vec<usize>,
    /// Positions of the entries whose counter could not be resolved.
    pub unresolved: Vec<usize>,
    /// Positions of the entries whose key is no title identifier.
    pub bad_keys: Vec<usize>,
    /// Seconds to wait before the next query.
    pub delay_secs: u64,
}

/// The title identifier that an entry's key names.
pub open spec fn entry_id(key: Seq<char>) -> Option<u64> {
    if is_u64_text(key) {
        Some(digits_value(unsigned_digits(key)) as u64)
    } else {
        None
    }
}

/// The counters after applying the entries of one successful cycle in order.
pub open spec fn apply_entries(seen: Map<u64, u64>, es: Seq<(String, VersionSnapshot)>) -> Map<
    u64,
    u64,
>
    decreases es.len(),
{
    if es.len() == 0 {
        seen
    } else {
        let before = apply_entries(seen, es.drop_last());
        match entry_id(es.last().0@) {
            Some(id) => before.insert(id, counter_or_zero(&es.last().1)),
            None => before,
        }
    }
}

/// The entry at position `i` raises an update when applied after those before it.
pub open spec fn entry_updates(seen: Map<u64, u64>, es: Seq<(String, VersionSnapshot)>, i: int) -> bool {
    match entry_id(es[i].0@) {
        Some(id) => is_update(apply_entries(seen, es.take(i)), id, counter_or_zero(&es[i].1)),
        None => false,
    }
}

/// The positions, ascending, among the first `n` entries that satisfy `p`.
pub open spec fn positions(n: int, p: spec_fn(int) -> bool) -> Seq<usize>
    decreases n,
{
    if n <= 0 {
        Seq::empty()
    } else if p(n - 1) {
        positions(n - 1, p).push((n - 1) as usize)
    } else {
        positions(n - 1, p)
    }
}

/// Whether an entry raises an update, by position.
pub open spec fn updates_at(seen: Map<u64, u64>, es: Seq<(String, VersionSnapshot)>) -> spec_fn(int) -> bool {
    |i: int| entry_updates(seen, es, i)
}

/// Whether an entry names a title but yields no counter, by position.
pub open spec fn unresolved_at(es: Seq<(String, VersionSnapshot)>) -> spec_fn(int) -> bool {
    |i: int| entry_id(es[i].0@) is Some && snapshot_counter(&es[i].1) is None
}

/// Whether an entry's key names no title, by position.
pub open spec fn bad_key_at(es: Seq<(String, VersionSnapshot)>) -> spec_fn(int) -> bool {
    |i: int| entry_id(es[i].0@) is None
}

/// The counters after one cycle whose query answered `fetched`; a failed
/// query changes nothing.
pub open spec fn after_cycle(seen: Map<u64, u64>, fetched: Option<Seq<(String, VersionSnapshot)>>) -> Map<u64, u64> {
    match fetched {
        Some(es) => apply_entries(seen, es),
        None => seen,
    }
}

impl GameVersionManager {
    /// Runs one poll cycle on the outcome of the batched query: `None` where
    /// the query failed in transport or decoding, else its entries in order.
    pub fn poll_cycle(&mut self, fetched: Option<Vec<(String, VersionSnapshot)>>) -> (r: PollStep)
        ensures
            final(self).titles() == old(self).titles(),
            final(self).counters() == after_cycle(
                old(self).counters(),
                match fetched { Some(es) => Some(es@), None => None },
            ),
            match fetched {
                None => {
                    &&& r.delay_secs == RETRY_DELAY_SECS
                    &&& r.updated@.len() == 0
                    &&& r.unresolved@.len() == 0
                    &&& r.bad_keys@.len() == 0
                },
                Some(es) => {
                    &&& r.delay_secs == POLL_INTERVAL_SECS
                    &&& r.updated@ == positions(es@.len() as int, updates_at(old(self).counters(), es@))
                    &&& r.unresolved@ == positions(es@.len() as int, unresolved_at(es@))
                    &&& r.bad_keys@ == positions(es@.len() as int, bad_key_at(es@))
                },
            },
    {
        let es = match fetched {
            None => {
                return PollStep {
                    updated: Vec::new(),
                    unresolved: Vec::new(),
                    bad_keys: Vec::new(),
                    delay_secs: RETRY_DELAY_SECS,
                };
            },
            Some(es) => es,
        };
        let ghost seen = self.counters();
        let mut updated: Vec<usize> = Vec::new();
        let mut unresolved: Vec<usize> = Vec::new();
        let mut bad_keys: Vec<usize> = Vec::new();
        let mut i: usize = 0;
        while i < es.len()
            invariant
                0 <= i <= es@.len(),
                self.titles() == old(self).titles(),
                seen == old(self).counters(),
                self.counters() == apply_entries(seen, es@.take(i as int)),
                updated@ == positions(i as int, updates_at(seen, es@)),
                unresolved@ == positions(i as int, unresolved_at(es@)),
                bad_keys@ == positions(i as int, bad_key_at(es@)),
            decreases es@.len() - i,
        {
            assert(es@.take(i + 1).drop_last() =~= es@.take(i as int));
            assert(es@.take(i + 1).last() == es@[i as int]);
            let key = &es[i].0;
            let snap = &es[i].1;
            match parse_u64(key.as_str()) {
                Some(id) => {
                    assert(entry_id(es@[i as int].0@) == Some(id));
                    let c = snap.counter();
                    if c.is_none() {
                        unresolved.push(i);
                    }
                    let n = snap.counter_or_zero();
                    let u = self.check_update(id, n);
                    assert(u == updates_at(seen, es@)(i as int));
                    assert(c.is_none() == unresolved_at(es@)(i as int));
                    if u {
                        updated.push(i);
                    }
                },
                None => {
                    bad_keys.push(i);
                },
            }
            i = i + 1;
        }
        assert(es@.take(es@.len() as int) =~= es@);
        PollStep { updated, unresolved, bad_keys, delay_secs: POLL_INTERVAL_SECS }
    }
}

/// Title identifiers in decimal, separated by commas.
pub open spec fn joined_ids(ids: Seq<i32>) -> Seq<char>
    decreases ids.len(),
{
    if ids.len() == 0 {
        Seq::empty()
    } else if ids.len() == 1 {
        int_text(ids[0] as int)
    } else {
        joined_ids(ids.drop_last()) + ","@ + int_text(ids.last() as int)
    }
}

/// The address of the batched snapshot query for these titles.
pub open spec fn query_address(host: Seq<char>, ids: Seq<i32>) -> Seq<char> {
    "http://"@ + host + ":23455/info?apps="@ + joined_ids(ids)
}

/// Builds the address of the batched snapshot query for these titles.
pub fn query_url(host: &str, ids: &Vec<i32>) -> (r: String)
    ensures
        r@ == query_address(host@, ids@),
{
    let mut r = String::from_str("http://");
    r.append(host);
    r.append(":23455/info?apps=");
    let ghost head = r@;
    let mut i: usize = 0;
    while i < ids.len()
        invariant
            i <= ids@.len(),
            r@ == head + joined_ids(ids@.take(i as int)),
        decreases ids@.len() - i,
    {
        assert(ids@.take(i + 1).drop_last() =~= ids@.take(i as int));
        let text = i32_text(ids[i]);
        if i > 0 {
            r.append(",");
        }
        r.append(text.as_str());
        i = i + 1;
        assert(r@ =~= head + joined_ids(ids@.take(i as int)));
    }
    assert(ids@.take(ids@.len() as int) =~= ids@);
    r
}

/// A snapshot that yields no counter counts as 0, which raises no update
/// where the title's last counter is unknown (absent or 0).
pub proof fn lemma_unresolved_snapshot_never_updates(
    seen: Map<u64, u64>,
    id: u64,
    snapshot: VersionSnapshot,
)
    requires
        snapshot_counter(&snapshot) is None,
        !seen.contains_key(id) || seen[id] == 0,
    ensures
        counter_or_zero(&snapshot) == 0,
        !is_update(seen, id, counter_or_zero(&snapshot)),
{
}

/// A failed query commits nothing: a failed cycle followed by its retry
/// leaves the counters as the retry alone would.
pub proof fn lemma_failed_cycle_commits_nothing(
    seen: Map<u64, u64>,
    retried: Option<Seq<(String, VersionSnapshot)>>,
)
    ensures
        after_cycle(seen, None) == seen,
        after_cycle(after_cycle(seen, None), retried) == after_cycle(seen, retried),
{
}

} // verus!
