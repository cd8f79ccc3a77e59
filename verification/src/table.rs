//! The flow table: active flows by key, with a capacity and two timeouts.
use vstd::prelude::*;
use dashmap::DashMap;
use crate::clock::{Timestamp, elapsed_secs, now, secs_between, uuid_shaped};
use crate::entry::{
    FlowEntry, FlowEntryView, can_count, counted_entry, counting_adds_one_packet, entry_times_wf,
    started_entry,
};
use crate::error::FlowError;
use crate::key::FlowKey;
use crate::text::{dec, push_dec};

verus! {

/// `dashmap::DashMap`, the concurrent hash map that holds the flows, used as an opaque type.
#[verifier::external_type_specification]
#[verifier::external_body]
#[verifier::reject_recursive_types(K)]
#[verifier::reject_recursive_types(V)]
#[verifier::reject_recursive_types(S)]
pub struct ExDashMap<K, V, S>(DashMap<K, V, S>);

/// The flows that a concurrent map of flows holds, each entry by its value.
pub uninterp spec fn flow_map(m: DashMap<FlowKey, FlowEntry>) -> Map<FlowKey, FlowEntryView>;

/// Calls `dashmap::DashMap::with_capacity_and_shard_amount(1024, 64)` (64 is a power
/// of two, so it does not panic). Claimed: the new map holds no flow.
#[verifier::external_body]
fn flow_map_new() -> (m: DashMap<FlowKey, FlowEntry>)
    ensures
        flow_map(m).dom() == Set::<FlowKey>::empty(),
{
    DashMap::with_capacity_and_shard_amount(1024, 64)
}

/// Calls `DashMap::len`. Claimed: the map holds finitely many flows and the result
/// is their number.
#[verifier::external_body]
fn flow_map_len(m: &DashMap<FlowKey, FlowEntry>) -> (n: usize)
    ensures
        n == flow_map(*m).len(),
{
    m.len()
}

/// Calls `DashMap::is_empty`. Claimed: the result tells whether the map holds no flow.
#[verifier::external_body]
fn flow_map_is_empty(m: &DashMap<FlowKey, FlowEntry>) -> (b: bool)
    ensures
        b == (flow_map(*m).dom() == Set::<FlowKey>::empty()),
{
    m.is_empty()
}

/// Calls `DashMap::contains_key`. Claimed: the result tells whether the map holds a
/// flow with this key (keys compare by the derived equality of `FlowKey`).
#[verifier::external_body]
fn flow_map_contains(m: &DashMap<FlowKey, FlowEntry>, k: &FlowKey) -> (b: bool)
    ensures
        b == flow_map(*m).contains_key(*k),
{
    m.contains_key(k)
}

/// Calls `DashMap::insert`. Claimed: afterwards the key maps to the value and all other
/// keys are unchanged; the result is the value the key had before, if any.
#[verifier::external_body]
fn flow_map_insert(m: &mut DashMap<FlowKey, FlowEntry>, k: FlowKey, v: FlowEntry) -> (r: Option<FlowEntry>)
    ensures
        flow_map(*final(m)) == flow_map(*old(m)).insert(k, v@),
        r is Some <==> flow_map(*old(m)).contains_key(k),
        r matches Some(w) ==> w@ == flow_map(*old(m))[k],
{
    m.insert(k, v)
}

/// Calls `DashMap::remove`. Claimed: afterwards the key is absent and all other keys
/// are unchanged; the result is the key and the value it had, if it was present.
#[verifier::external_body]
fn flow_map_remove(m: &mut DashMap<FlowKey, FlowEntry>, k: &FlowKey) -> (r: Option<(FlowKey, FlowEntry)>)
    ensures
        flow_map(*final(m)) == flow_map(*old(m)).remove(*k),
        r is Some <==> flow_map(*old(m)).contains_key(*k),
        r matches Some(p) ==> p.0 == *k && p.1@ == flow_map(*old(m))[*k],
{
    m.remove(k)
}

/// Calls `DashMap::clear`. Claimed: afterwards the map holds no flow.
#[verifier::external_body]
fn flow_map_clear(m: &mut DashMap<FlowKey, FlowEntry>)
    ensures
        flow_map(*final(m)).dom() == Set::<FlowKey>::empty(),
{
    m.clear()
}

/// Walks the map with `DashMap::iter`, copying each key and cloning each entry.
/// Claimed: each flow comes out once, with its value; the order is the map's own
/// and is left unsaid.
#[verifier::external_body]
fn flow_map_entries(m: &DashMap<FlowKey, FlowEntry>) -> (v: Vec<(FlowKey, FlowEntry)>)
    ensures
        lists_exactly(v@, flow_map(*m)),
{
    m.iter().map(|r| (*r.key(), r.value().clone())).collect()
}

/// `v` lists each flow of `m` exactly once, with its value.
pub open spec fn lists_exactly(v: Seq<(FlowKey, FlowEntry)>, m: Map<FlowKey, FlowEntryView>) -> bool {
    &&& m.dom().finite()
    &&& v.len() == m.len()
    &&& forall|i: int| 0 <= i < v.len() ==> m.contains_key(#[trigger] v[i].0) && v[i].1@ == m[v[i].0]
    &&& forall|i: int, j: int| 0 <= i < j < v.len() ==> #[trigger] v[i].0 != #[trigger] v[j].0
    &&& forall|k: FlowKey| m.contains_key(k) ==> exists|i: int| 0 <= i < v.len() && #[trigger] v[i].0 == k
}

/// Flow table configuration.
#[derive(Debug, Clone, Copy, PartialEq, Eq, Structural)]
pub struct FlowTableConfig {
    /// Maximum number of concurrent flows.
    pub max_flows: usize,
    /// Inactive timeout in seconds (a flow is exported after this long without packets).
    pub inactive_timeout_secs: u64,
    /// Active timeout in seconds (a long-lived flow is exported after this long).
    pub active_timeout_secs: u64,
}

impl Default for FlowTableConfig {
    fn default() -> (c: Self)
        ensures
            c == (FlowTableConfig { max_flows: 100_000, inactive_timeout_secs: 30, active_timeout_secs: 300 }),
    {
        FlowTableConfig { max_flows: 100_000, inactive_timeout_secs: 30, active_timeout_secs: 300 }
    }
}

/// The entry `e` is due for export at `now`: its TCP connection has ended (FIN or RST
/// seen), or it has been inactive for at least the inactive timeout, or it started at
/// least the active timeout ago (whole seconds, as unsigned numbers).
pub open spec fn flow_expired(e: FlowEntryView, now: Timestamp, c: FlowTableConfig) -> bool {
    e.tcp_flags.fin || e.tcp_flags.rst
        || (secs_between(now, e.last_activity) as u64) >= c.inactive_timeout_secs
        || (secs_between(now, e.timestamp_start) as u64) >= c.active_timeout_secs
}

/// The map `after` is `before` once a packet of `bytes` bytes with optional TCP flags has
/// been counted for `key`: into its entry, or into a fresh forward entry.
pub open spec fn flow_counted(
    before: Map<FlowKey, FlowEntryView>,
    after: Map<FlowKey, FlowEntryView>,
    key: FlowKey,
    bytes: u64,
    tcp_flags: Option<u8>,
) -> bool {
    let e = after[key];
    &&& after == before.insert(key, e)
    &&& e.timestamp_end.wf()
    &&& if before.contains_key(key) {
        e == counted_entry(before[key], e.timestamp_end, bytes, tcp_flags)
    } else {
        &&& uuid_shaped(e.flow_id)
        &&& e.timestamp_start.wf()
        &&& e == counted_entry(started_entry(e.flow_id, e.timestamp_start, true), e.timestamp_end, bytes, tcp_flags)
    }
}

/// `v` lists each flow of `m` that is due for export at `now` exactly once, with its value.
pub open spec fn lists_expired(v: Seq<(FlowKey, FlowEntry)>, m: Map<FlowKey, FlowEntryView>, now: Timestamp, c: FlowTableConfig) -> bool {
    &&& forall|i: int| 0 <= i < v.len() ==> m.contains_key(#[trigger] v[i].0) && v[i].1@ == m[v[i].0]
        && flow_expired(m[v[i].0], now, c)
    &&& forall|i: int, j: int| 0 <= i < j < v.len() ==> #[trigger] v[i].0 != #[trigger] v[j].0
    &&& forall|k: FlowKey| m.contains_key(k) && flow_expired(m[k], now, c)
        ==> exists|i: int| 0 <= i < v.len() && #[trigger] v[i].0 == k
}

/// The flows of `m` that are not due for export at `now`.
pub open spec fn unexpired(m: Map<FlowKey, FlowEntryView>, now: Timestamp, c: FlowTableConfig) -> Map<FlowKey, FlowEntryView> {
    m.restrict(m.dom().filter(|k: FlowKey| !flow_expired(m[k], now, c)))
}

/// The display text of a table with `active` flows and capacity `max`.
pub open spec fn flow_table_text(active: nat, max: nat) -> Seq<char> {
    "FlowTable(active="@ + dec(active) + ", max="@ + dec(max) + ")"@
}

/// Whether `entry` is due for export at `now` under `config`.
fn flow_is_expired(entry: &FlowEntry, now: Timestamp, config: &FlowTableConfig) -> (b: bool)
    requires
        entry_times_wf(entry@),
        now.wf(),
    ensures
        b == flow_expired(entry@, now, *config),
{
    if entry.tcp_flags.fin || entry.tcp_flags.rst {
        return true;
    }
    let inactive_expired = elapsed_secs(now, entry.last_activity) as u64 >= config.inactive_timeout_secs;
    let active_expired = elapsed_secs(now, entry.timestamp_start) as u64 >= config.active_timeout_secs;
    inactive_expired || active_expired
}

/// Flow table for managing active flows.
pub struct FlowTable {
    config: FlowTableConfig,
    flows: DashMap<FlowKey, FlowEntry>,
}

impl View for FlowTable {
    type V = Map<FlowKey, FlowEntryView>;

    closed spec fn view(&self) -> Map<FlowKey, FlowEntryView> {
        flow_map(self.flows)
    }
}

impl FlowTable {
    /// The configuration the table was made with.
    pub closed spec fn limits(&self) -> FlowTableConfig {
        self.config
    }

    /// The table holds finitely many flows, at most its capacity, each with
    /// well-formed timestamps.
    pub closed spec fn wf(&self) -> bool {
        &&& self@.dom().finite()
        &&& self@.len() <= self.config.max_flows
        &&& forall|k: FlowKey| self@.contains_key(k) ==> entry_times_wf(#[trigger] self@[k])
    }

    /// Creates an empty flow table.
    pub fn new(config: FlowTableConfig) -> (t: Self)
        ensures
            t.wf(),
            t.limits() == config,
            t@ == Map::<FlowKey, FlowEntryView>::empty(),
    {
        FlowTable { config, flows: flow_map_new() }
    }

    /// Counts a packet of `bytes` bytes for the flow `key`, creating the flow if needed.
    /// Fails with `TableFull` when the table is at capacity and the flow is new.
    pub fn update_flow(&mut self, key: FlowKey, bytes: u64, tcp_flags: Option<u8>) -> (r: Result<(), FlowError>)
        requires
            old(self).wf(),
            old(self)@.contains_key(key) ==> can_count(old(self)@[key], bytes),
        ensures
            final(self).wf(),
            final(self).limits() == old(self).limits(),
            r is Err <==> (old(self)@.len() >= old(self).limits().max_flows && !old(self)@.contains_key(key)),
            r matches Err(e) ==> e == FlowError::TableFull(old(self).limits().max_flows) && final(self)@ == old(self)@,
            r is Ok ==> flow_counted(old(self)@, final(self)@, key, bytes, tcp_flags),
    {
        if flow_map_len(&self.flows) >= self.config.max_flows && !flow_map_contains(&self.flows, &key) {
            return Err(FlowError::TableFull(self.config.max_flows));
        }
        let ghost before = flow_map(self.flows);
        match flow_map_remove(&mut self.flows, &key) {
            Some((_, mut entry)) => {
                entry.update(bytes, tcp_flags);
                flow_map_insert(&mut self.flows, key, entry);
                assert(flow_map(self.flows) =~= before.insert(key, flow_map(self.flows)[key]));
            },
            None => {
                let mut entry = FlowEntry::new(true);
                entry.update(bytes, tcp_flags);
                flow_map_insert(&mut self.flows, key, entry);
                assert(flow_map(self.flows) =~= before.insert(key, flow_map(self.flows)[key]));
                assert(flow_map(self.flows).len() == before.len() + 1);
            },
        }
        Ok(())
    }

    /// Removes and returns the flows that are due for export now (connection ended or timed out).
    pub fn get_expired_flows(&mut self) -> (expired: Vec<(FlowKey, FlowEntry)>)
        requires
            old(self).wf(),
        ensures
            final(self).wf(),
            final(self).limits() == old(self).limits(),
            exists|t: Timestamp| #![auto] t.wf()
                && lists_expired(expired@, old(self)@, t, old(self).limits())
                && final(self)@ == unexpired(old(self)@, t, old(self).limits()),
    {
        let t = now();
        self.expire_at(t)
    }

    /// Removes and returns the flows that are due for export at `now` (connection ended or timed out).
    pub fn expire_at(&mut self, now: Timestamp) -> (expired: Vec<(FlowKey, FlowEntry)>)
        requires
            old(self).wf(),
            now.wf(),
        ensures
            final(self).wf(),
            final(self).limits() == old(self).limits(),
            lists_expired(expired@, old(self)@, now, old(self).limits()),
            final(self)@ == unexpired(old(self)@, now, old(self).limits()),
    {
        let ghost start = flow_map(self.flows);
        let entries = flow_map_entries(&self.flows);
        let mut expired: Vec<(FlowKey, FlowEntry)> = Vec::new();
        let ghost mut gone: Set<FlowKey> = Set::empty();
        let mut i: usize = 0;
        while i < entries.len()
            invariant
                0 <= i <= entries@.len(),
                self.config == old(self).config,
                start == flow_map(old(self).flows),
                old(self).wf(),
                now.wf(),
                lists_exactly(entries@, start),
                gone.finite(),
                flow_map(self.flows) == start.remove_keys(gone),
                forall|k: FlowKey| gone.contains(k) ==> start.contains_key(k) && flow_expired(start[k], now, self.config),
                forall|k: FlowKey| gone.contains(k) ==> exists|j: int| 0 <= j < i && #[trigger] entries@[j].0 == k,
                forall|j: int| 0 <= j < i && flow_expired(start[entries@[j].0], now, self.config)
                    ==> gone.contains(#[trigger] entries@[j].0),
                forall|m: int| 0 <= m < expired@.len() ==> gone.contains(#[trigger] expired@[m].0)
                    && expired@[m].1@ == start[expired@[m].0],
                forall|k: FlowKey| gone.contains(k) ==> exists|m: int| 0 <= m < expired@.len() && #[trigger] expired@[m].0 == k,
                forall|m1: int, m2: int| 0 <= m1 < m2 < expired@.len() ==> #[trigger] expired@[m1].0 != #[trigger] expired@[m2].0,
            decreases entries@.len() - i,
        {
            let k = entries[i].0;
            assert(start.contains_key(entries@[i as int].0));
            if flow_is_expired(&entries[i].1, now, &self.config) {
                assert(!gone.contains(k)) by {
                    if gone.contains(k) {
                        let j = choose|j: int| 0 <= j < i && #[trigger] entries@[j].0 == k;
                        assert(entries@[j].0 != entries@[i as int].0);
                    }
                }
                match flow_map_remove(&mut self.flows, &k) {
                    Some(pair) => {
                        let ghost old_expired = expired@;
                        expired.push(pair);
                        proof {
                            assert forall|m: int| 0 <= m < old_expired.len() implies #[trigger] expired@[m].0 != k by {
                                assert(expired@[m] == old_expired[m]);
                            }
                            gone = gone.insert(k);
                            assert forall|kk: FlowKey| gone.contains(kk) implies exists|m: int| 0 <= m < expired@.len() && #[trigger] expired@[m].0 == kk by {
                                if kk == k {
                                    assert(expired@[old_expired.len() as int].0 == k);
                                } else {
                                    let m = choose|m: int| 0 <= m < old_expired.len() && #[trigger] old_expired[m].0 == kk;
                                    assert(expired@[m] == old_expired[m]);
                                }
                            }
                            assert forall|kk: FlowKey| gone.contains(kk) implies exists|j: int| 0 <= j < i + 1 && #[trigger] entries@[j].0 == kk by {
                                if kk == k {
                                    assert(entries@[i as int].0 == kk);
                                }
                            }
                        }
                        assert(flow_map(self.flows) =~= start.remove_keys(gone));
                    },
                    None => {
                        assert(false);
                    },
                }
            } else {
                assert forall|kk: FlowKey| gone.contains(kk) implies exists|j: int| 0 <= j < i + 1 && #[trigger] entries@[j].0 == kk by {
                    let j = choose|j: int| 0 <= j < i && #[trigger] entries@[j].0 == kk;
                }
            }
            i = i + 1;
        }
        proof {
            assert forall|k: FlowKey| start.contains_key(k) && flow_expired(start[k], now, self.config)
                implies exists|m: int| 0 <= m < expired@.len() && #[trigger] expired@[m].0 == k by {
                let j = choose|j: int| 0 <= j < entries@.len() && #[trigger] entries@[j].0 == k;
                assert(gone.contains(entries@[j].0));
            }
            assert(flow_map(self.flows) =~= unexpired(start, now, self.config)) by {
                assert forall|k: FlowKey| gone.contains(k) <==> (start.contains_key(k) && flow_expired(start[k], now, self.config)) by {
                    if start.contains_key(k) && flow_expired(start[k], now, self.config) {
                        let j = choose|j: int| 0 <= j < entries@.len() && #[trigger] entries@[j].0 == k;
                        assert(gone.contains(entries@[j].0));
                    }
                }
            }
            assert(flow_map(self.flows).dom().subset_of(start.dom()));
            vstd::set_lib::lemma_len_subset(flow_map(self.flows).dom(), start.dom());
        }
        expired
    }

    /// All active flows, each once with its value, in the table's own order.
    pub fn get_active_flows(&self) -> (flows: Vec<(FlowKey, FlowEntry)>)
        ensures
            lists_exactly(flows@, self@),
    {
        flow_map_entries(&self.flows)
    }

    /// Number of active flows.
    pub fn len(&self) -> (n: usize)
        ensures
            n == self@.len(),
    {
        flow_map_len(&self.flows)
    }

    /// Whether the table holds no flow.
    pub fn is_empty(&self) -> (b: bool)
        ensures
            b == (self@.dom() == Set::<FlowKey>::empty()),
            self.wf() ==> (b == (self@.len() == 0)),
    {
        let b = flow_map_is_empty(&self.flows);
        proof {
            if self.wf() && self@.len() == 0 {
                assert(self@.dom() =~= Set::<FlowKey>::empty());
            }
        }
        b
    }

    /// Removes all flows.
    pub fn clear(&mut self)
        ensures
            final(self).wf(),
            final(self).limits() == old(self).limits(),
            final(self)@ == Map::<FlowKey, FlowEntryView>::empty(),
    {
        flow_map_clear(&mut self.flows);
    }

    /// The display text: `FlowTable(active=N, max=M)`.
    pub fn to_string(&self) -> (s: String)
        ensures
            s@ == flow_table_text(self@.len(), self.limits().max_flows as nat),
    {
        let mut s = String::from_str("FlowTable(active=");
        push_dec(&mut s, flow_map_len(&self.flows) as u64);
        s.append(", max=");
        push_dec(&mut s, self.config.max_flows as u64);
        s.append(")");
        s
    }
}

/// A table that is kept well formed never holds more flows than its capacity, and its
/// flows all carry well-formed timestamps.
pub proof fn table_within_capacity(t: &FlowTable)
    requires
        t.wf(),
    ensures
        t@.dom().finite(),
        t@.len() <= t.limits().max_flows,
        forall|k: FlowKey| t@.contains_key(k) ==> entry_times_wf(#[trigger] t@[k]),
{
}

/// After a packet is counted for a key, the table holds that key: one more flow if the
/// key was new, as many as before otherwise, and no other flow changed.
pub proof fn counted_flow_is_present(
    before: Map<FlowKey, FlowEntryView>,
    after: Map<FlowKey, FlowEntryView>,
    key: FlowKey,
    bytes: u64,
    tcp_flags: Option<u8>,
)
    requires
        before.dom().finite(),
        before.contains_key(key) ==> can_count(before[key], bytes),
        flow_counted(before, after, key, bytes, tcp_flags),
    ensures
        after.contains_key(key),
        after.len() == before.len() + (if before.contains_key(key) { 0int } else { 1int }),
        forall|k: FlowKey| k != key ==> (after.contains_key(k) <==> before.contains_key(k)),
        forall|k: FlowKey| k != key && before.contains_key(k) ==> after[k] == before[k],
        after[key].packets_forward + after[key].packets_reverse == (if before.contains_key(key) {
            before[key].packets_forward + before[key].packets_reverse + 1
        } else {
            1
        }),
{
    if before.contains_key(key) {
        assert(before.insert(key, after[key]).dom() =~= before.dom());
        counting_adds_one_packet(before[key], after[key].timestamp_end, bytes, tcp_flags);
    }
}

/// Expiring the flows at `now` splits the table: every flow either stays (and is not due
/// for export) or comes out once (and is due); none is lost or duplicated.
pub proof fn expiry_partitions(
    v: Seq<(FlowKey, FlowEntry)>,
    m: Map<FlowKey, FlowEntryView>,
    m2: Map<FlowKey, FlowEntryView>,
    now: Timestamp,
    c: FlowTableConfig,
)
    requires
        m.dom().finite(),
        lists_expired(v, m, now, c),
        m2 == unexpired(m, now, c),
    ensures
        forall|k: FlowKey| m.contains_key(k) ==> (m2.contains_key(k) <==> !(exists|i: int| 0 <= i < v.len() && #[trigger] v[i].0 == k)),
        forall|k: FlowKey| m2.contains_key(k) ==> m.contains_key(k) && m2[k] == m[k] && !flow_expired(#[trigger] m2[k], now, c),
        m2.len() + v.len() == m.len(),
{
    let gone = m.dom().filter(|k: FlowKey| flow_expired(m[k], now, c));
    let keys = v.map_values(|p: (FlowKey, FlowEntry)| p.0);
    assert(keys.no_duplicates()) by {
        assert forall|i: int, j: int| 0 <= i < keys.len() && 0 <= j < keys.len() && i != j implies keys[i] != keys[j] by {
            if i < j {
                assert(v[i].0 != v[j].0);
            } else {
                assert(v[j].0 != v[i].0);
            }
        }
    }
    assert(keys.to_set() =~= gone) by {
        assert forall|k: FlowKey| keys.to_set().contains(k) <==> gone.contains(k) by {
            if keys.to_set().contains(k) {
                let i = choose|i: int| 0 <= i < keys.len() && keys[i] == k;
                assert(v[i].0 == k);
            }
            if gone.contains(k) {
                let i = choose|i: int| 0 <= i < v.len() && #[trigger] v[i].0 == k;
                assert(keys[i] == k);
            }
        }
    }
    keys.unique_seq_to_set();
    assert(m2.dom() =~= m.dom().difference(gone));
    vstd::set_lib::lemma_set_intersect_union_lens(m.dom(), gone);
    assert(m.dom().intersect(gone) =~= gone);
    assert(m.dom().difference(gone) + gone =~= m.dom());
    vstd::set_lib::lemma_set_disjoint_lens(m.dom().difference(gone), gone);
}

/// After expiry no flow whose TCP connection has ended (FIN or RST seen) remains in the
/// table, whatever the timeouts: each such flow is among those handed out.
pub proof fn ended_connections_leave(
    v: Seq<(FlowKey, FlowEntry)>,
    m: Map<FlowKey, FlowEntryView>,
    now: Timestamp,
    c: FlowTableConfig,
    k: FlowKey,
)
    requires
        lists_expired(v, m, now, c),
        m.contains_key(k),
        m[k].tcp_flags.fin || m[k].tcp_flags.rst,
    ensures
        !unexpired(m, now, c).contains_key(k),
        exists|i: int| 0 <= i < v.len() && v[i].0 == k && v[i].1@ == m[k],
{
    assert(flow_expired(m[k], now, c));
}

/// Expiry follows the flow's connection state and its two timeouts, counted in whole
/// seconds elapsed up to `now`: a flow is handed out exactly when FIN or RST was seen,
/// or its last packet lies at least the inactive timeout back, or its start lies at
/// least the active timeout back (so a busy long-lived flow is still exported
/// periodically). Stated for a `now` that is not before the flow's times.
pub proof fn expiry_follows_timeouts(
    v: Seq<(FlowKey, FlowEntry)>,
    m: Map<FlowKey, FlowEntryView>,
    now: Timestamp,
    c: FlowTableConfig,
    k: FlowKey,
)
    requires
        lists_expired(v, m, now, c),
        m.contains_key(k),
        now.wf(),
        entry_times_wf(m[k]),
        m[k].last_activity.total_nanos() <= now.total_nanos(),
        m[k].timestamp_start.total_nanos() <= now.total_nanos(),
    ensures
        (exists|i: int| 0 <= i < v.len() && v[i].0 == k && v[i].1@ == m[k]) <==> (
            m[k].tcp_flags.fin || m[k].tcp_flags.rst
            || (now.total_nanos() - m[k].last_activity.total_nanos()) / 1_000_000_000 >= c.inactive_timeout_secs
            || (now.total_nanos() - m[k].timestamp_start.total_nanos()) / 1_000_000_000 >= c.active_timeout_secs
        ),
{
    let e = m[k];
    let idle = now.total_nanos() - e.last_activity.total_nanos();
    let age = now.total_nanos() - e.timestamp_start.total_nanos();
    assert(idle <= 20_000_000_000_000_000_000_000 && age <= 20_000_000_000_000_000_000_000);
    assert(idle / 1_000_000_000 <= 20_000_000_000_000) by (nonlinear_arith)
        requires
            0 <= idle <= 20_000_000_000_000_000_000_000,
    ;
    assert(age / 1_000_000_000 <= 20_000_000_000_000) by (nonlinear_arith)
        requires
            0 <= age <= 20_000_000_000_000_000_000_000,
    ;
    assert(idle / 1_000_000_000 >= 0 && age / 1_000_000_000 >= 0);
    if flow_expired(e, now, c) {
        let i = choose|i: int| 0 <= i < v.len() && #[trigger] v[i].0 == k;
        assert(v[i].1@ == m[k]);
    }
}

} // verus!
