//! Bookkeeping that keeps the client from repeating requests: the last
//! selection sent to the gateway, and a bounded set of recent requests that
//! expire after a time to live.
use crate::ids::Id;
use std::collections::{HashMap, VecDeque};
use vstd::prelude::*;

verus! {

/// The last key that was selected, to tell a real change from a repeat.
#[derive(Debug)]
pub struct LastSelection<M> {
    selected: Option<Id<M>>,
}

impl<M> View for LastSelection<M> {
    type V = Option<u64>;

    closed spec fn view(&self) -> Option<u64> {
        match self.selected {
            Some(id) => Some(id@),
            None => None,
        }
    }
}

impl<M> Default for LastSelection<M> {
    fn default() -> (selection: Self)
        ensures
            selection@ is None,
    {
        LastSelection { selected: None }
    }
}

/// Selecting `key` when `last` was the last selection: the new last
/// selection, and whether it is a change.
pub open spec fn selection_after(last: Option<u64>, key: u64) -> (Option<u64>, bool) {
    (Some(key), last != Some(key))
}

impl<M> LastSelection<M> {
    /// Forgets the last selection.
    pub fn clear(&mut self)
        ensures
            final(self)@ is None,
    {
        self.selected = None;
    }

    /// Records `key` as selected; tells whether it differs from the last
    /// selection.
    pub fn select(&mut self, key: Id<M>) -> (changed: bool)
        ensures
            (final(self)@, changed) == selection_after(old(self)@, key@),
    {
        let changed = match self.selected {
            Some(previous) => !previous.same(&key),
            None => true,
        };
        self.selected = Some(key);
        changed
    }
}

/// Whether some entry of `entries` has the key `key`.
pub open spec fn has_key(entries: Seq<(u64, u64)>, key: u64) -> bool {
    exists|i: int| 0 <= i < entries.len() && #[trigger] entries[i].0 == key
}

/// No key occurs twice.
pub open spec fn keys_distinct(entries: Seq<(u64, u64)>) -> bool {
    forall|i: int, j: int|
        0 <= i < j < entries.len() ==> #[trigger] entries[i].0 != #[trigger] entries[j].0
}

/// A request made at `requested_at` is still fresh at `now` when it is at
/// most `ttl` old; a request time in the future counts as fresh.
pub open spec fn is_fresh(requested_at: u64, now: u64, ttl: u64) -> bool {
    now < requested_at || now - requested_at <= ttl
}

/// The fresh entries of `entries`, in their order.
pub open spec fn fresh_entries(entries: Seq<(u64, u64)>, now: u64, ttl: u64) -> Seq<(u64, u64)>
    decreases entries.len(),
{
    if entries.len() == 0 {
        entries
    } else {
        let rest = fresh_entries(entries.drop_last(), now, ttl);
        if is_fresh(entries.last().1, now, ttl) {
            rest.push(entries.last())
        } else {
            rest
        }
    }
}

/// The newest `max` entries of `entries`.
pub open spec fn newest(entries: Seq<(u64, u64)>, max: nat) -> Seq<(u64, u64)> {
    if entries.len() > max {
        entries.subrange(entries.len() - max, entries.len() as int)
    } else {
        entries
    }
}

/// Pruning drops stale requests, then the oldest ones beyond the limit.
pub open spec fn pruned(entries: Seq<(u64, u64)>, now: u64, ttl: u64, max: nat) -> Seq<(u64, u64)> {
    newest(fresh_entries(entries, now, ttl), max)
}

/// The entries without the one of key `key`.
pub open spec fn without_key(entries: Seq<(u64, u64)>, key: u64) -> Seq<(u64, u64)>
    decreases entries.len(),
{
    if entries.len() == 0 {
        entries
    } else {
        let rest = without_key(entries.drop_last(), key);
        if entries.last().0 == key {
            rest
        } else {
            rest.push(entries.last())
        }
    }
}

/// Everything that `fresh_entries` keeps comes from `entries`, and it keeps
/// distinct keys distinct.
proof fn lemma_fresh_entries(entries: Seq<(u64, u64)>, now: u64, ttl: u64)
    ensures
        fresh_entries(entries, now, ttl).len() <= entries.len(),
        forall|i: int|
            0 <= i < fresh_entries(entries, now, ttl).len() ==> entries.contains(
                #[trigger] fresh_entries(entries, now, ttl)[i],
            ),
        forall|i: int|
            0 <= i < fresh_entries(entries, now, ttl).len() ==> is_fresh(
                #[trigger] fresh_entries(entries, now, ttl)[i].1,
                now,
                ttl,
            ),
        keys_distinct(entries) ==> keys_distinct(fresh_entries(entries, now, ttl)),
    decreases entries.len(),
{
    if entries.len() > 0 {
        let init = entries.drop_last();
        lemma_fresh_entries(init, now, ttl);
        let rest = fresh_entries(init, now, ttl);
        assert forall|i: int| 0 <= i < rest.len() implies entries.contains(#[trigger] rest[i]) by {
            let k = choose|k: int| 0 <= k < init.len() && init[k] == rest[i];
            assert(entries[k] == rest[i]);
        }
        if is_fresh(entries.last().1, now, ttl) {
            let r = rest.push(entries.last());
            assert(r[rest.len() as int] == entries[entries.len() - 1]);
            assert forall|i: int| 0 <= i < r.len() implies entries.contains(#[trigger] r[i]) by {
                if i < rest.len() {
                    assert(r[i] == rest[i]);
                }
            }
            if keys_distinct(entries) {
                assert(keys_distinct(init));
                assert forall|i: int, j: int| 0 <= i < j < r.len() implies #[trigger] r[i].0
                    != #[trigger] r[j].0 by {
                    if j == rest.len() {
                        assert(r[i] == rest[i]);
                        let k = choose|k: int| 0 <= k < init.len() && init[k] == rest[i];
                        assert(entries[k] == init[k]);
                    } else {
                        assert(r[i] == rest[i]);
                        assert(r[j] == rest[j]);
                    }
                }
            }
        } else {
            if keys_distinct(entries) {
                assert(keys_distinct(init));
            }
        }
    }
}

/// `without_key` removes exactly the entries of `key` and keeps the rest in
/// order.
proof fn lemma_without_key(entries: Seq<(u64, u64)>, key: u64)
    ensures
        !has_key(without_key(entries, key), key),
        forall|i: int|
            0 <= i < without_key(entries, key).len() ==> entries.contains(
                #[trigger] without_key(entries, key)[i],
            ),
        keys_distinct(entries) ==> keys_distinct(without_key(entries, key)),
        forall|k: u64| k != key ==> (has_key(without_key(entries, key), k) <==> has_key(entries, k)),
    decreases entries.len(),
{
    if entries.len() > 0 {
        let init = entries.drop_last();
        lemma_without_key(init, key);
        let rest = without_key(init, key);
        assert forall|i: int| 0 <= i < rest.len() implies entries.contains(#[trigger] rest[i]) by {
            let k = choose|k: int| 0 <= k < init.len() && init[k] == rest[i];
            assert(entries[k] == rest[i]);
        }
        assert forall|k: u64| k != key implies (has_key(init, k) || entries.last().0 == k)
            == has_key(entries, k) by {
            if has_key(entries, k) {
                let i = choose|i: int| 0 <= i < entries.len() && #[trigger] entries[i].0 == k;
                if i < init.len() {
                    assert(init[i].0 == k);
                }
            }
            if has_key(init, k) {
                let i = choose|i: int| 0 <= i < init.len() && #[trigger] init[i].0 == k;
                assert(entries[i].0 == k);
            }
        }
        if entries.last().0 != key {
            let r = rest.push(entries.last());
            assert(r[rest.len() as int] == entries.last());
            assert forall|i: int| 0 <= i < r.len() implies entries.contains(#[trigger] r[i]) by {
                if i < rest.len() {
                    assert(r[i] == rest[i]);
                } else {
                    assert(entries[entries.len() - 1] == r[i]);
                }
            }
            assert(!has_key(r, key)) by {
                if has_key(r, key) {
                    let i = choose|i: int| 0 <= i < r.len() && #[trigger] r[i].0 == key;
                    if i < rest.len() {
                        assert(r[i] == rest[i]);
                    }
                }
            }
            assert forall|k: u64| k != key implies (has_key(r, k) <==> has_key(rest, k)
                || entries.last().0 == k) by {
                if has_key(r, k) {
                    let i = choose|i: int| 0 <= i < r.len() && #[trigger] r[i].0 == k;
                    if i < rest.len() {
                        assert(r[i] == rest[i]);
                    }
                }
                if has_key(rest, k) {
                    let i = choose|i: int| 0 <= i < rest.len() && #[trigger] rest[i].0 == k;
                    assert(r[i] == rest[i]);
                }
                if entries.last().0 == k {
                    assert(r[rest.len() as int].0 == k);
                }
            }
            if keys_distinct(entries) {
                assert(keys_distinct(init));
                assert forall|i: int, j: int| 0 <= i < j < r.len() implies #[trigger] r[i].0
                    != #[trigger] r[j].0 by {
                    if j == rest.len() {
                        assert(r[i] == rest[i]);
                        let k = choose|k: int| 0 <= k < init.len() && init[k] == rest[i];
                        assert(entries[k] == init[k]);
                    } else {
                        assert(r[i] == rest[i]);
                        assert(r[j] == rest[j]);
                    }
                }
            }
        } else {
            assert forall|k: u64| k != key implies (has_key(rest, k) <==> has_key(entries, k)) by {
            }
            if keys_distinct(entries) {
                assert(keys_distinct(init));
            }
        }
    }
}

/// The entries of a set of recent requests: its keys in request order, each
/// with the time it was requested at.
pub open spec fn entries_in_order(order: Seq<u64>, times: Map<u64, u64>) -> Seq<(u64, u64)> {
    Seq::new(order.len(), |i: int| (order[i], times[order[i]]))
}

/// A set of recent requests: a request is remembered until it is older than
/// the time to live or until more than `max_requested` newer ones push it
/// out, oldest first. Request times, the current time and the time to live
/// are counts of one unit of a monotonic clock; counted in nanoseconds they
/// compare exactly as the clock's durations do.
#[derive(Debug)]
pub struct TimedRequestSet {
    requested: HashMap<u64, u64>,
    requested_order: VecDeque<u64>,
    ttl: u64,
    max_requested: usize,
}

impl View for TimedRequestSet {
    type V = Seq<(u64, u64)>;

    /// The remembered requests, oldest first: each key with its request time.
    closed spec fn view(&self) -> Seq<(u64, u64)> {
        entries_in_order(self.requested_order@, self.requested@)
    }
}

/// The map of request times and the request order that hold `entries`.
fn stores_of(entries: &Vec<(u64, u64)>) -> (stores: (HashMap<u64, u64>, VecDeque<u64>))
    requires
        keys_distinct(entries@),
    ensures
        entries_in_order(stores.1@, stores.0@) == entries@,
        forall|k: u64| stores.0@.contains_key(k) <==> stores.1@.contains(k),
{
    let mut times: HashMap<u64, u64> = HashMap::new();
    let mut order: VecDeque<u64> = VecDeque::new();
    let mut i: usize = 0;
    while i < entries.len()
        invariant
            i <= entries@.len(),
            keys_distinct(entries@),
            order@.len() == i,
            forall|j: int| 0 <= j < i ==> #[trigger] order@[j] == entries@[j].0,
            forall|j: int|
                0 <= j < i ==> times@.contains_key(#[trigger] entries@[j].0) && times@[entries@[j].0]
                    == entries@[j].1,
            forall|k: u64| times@.contains_key(k) <==> order@.contains(k),
        decreases entries.len() - i,
    {
        let (key, at) = entries[i];
        let ghost old_order = order@;
        let ghost old_times = times@;
        times.insert(key, at);
        order.push_back(key);
        proof {
            assert forall|j: int| 0 <= j < i implies #[trigger] entries@[j].0 != key by {
                assert(entries@[j].0 != entries@[i as int].0);
            }
            assert forall|k: u64| times@.contains_key(k) <==> order@.contains(k) by {
                if old_order.contains(k) {
                    let w = choose|w: int| 0 <= w < old_order.len() && old_order[w] == k;
                    assert(order@[w] == k);
                }
                if k == key {
                    assert(order@[i as int] == k);
                }
                if order@.contains(k) {
                    let w = choose|w: int| 0 <= w < order@.len() && order@[w] == k;
                    if w < i {
                        assert(old_order[w] == k);
                    }
                }
            }
            assert forall|j: int| 0 <= j < i + 1 implies #[trigger] order@[j] == entries@[j].0 by {
                if j < i {
                    assert(order@[j] == old_order[j]);
                }
            }
        }
        i += 1;
    }
    assert(entries_in_order(order@, times@) =~= entries@);
    (times, order)
}

/// Prunes a list of requests: the fresh ones at `now`, then only the newest
/// `max` of those.
fn pruned_requests(entries: Vec<(u64, u64)>, now: u64, ttl: u64, max: usize) -> (kept: Vec<
    (u64, u64),
>)
    requires
        keys_distinct(entries@),
    ensures
        kept@ == pruned(entries@, now, ttl, max as nat),
        keys_distinct(kept@),
        kept@.len() <= max,
{
    let ghost before = entries@;
    proof {
        lemma_fresh_entries(before, now, ttl);
    }
    let mut fresh: Vec<(u64, u64)> = Vec::new();
    let mut i: usize = 0;
    assert(before.take(0) =~= Seq::<(u64, u64)>::empty());
    while i < entries.len()
        invariant
            i <= before.len(),
            entries@ == before,
            fresh@ == fresh_entries(before.take(i as int), now, ttl),
        decreases entries.len() - i,
    {
        let entry = entries[i];
        assert(before.take(i + 1).drop_last() =~= before.take(i as int));
        let keep = match now.checked_sub(entry.1) {
            Some(age) => age <= ttl,
            None => true,
        };
        if keep {
            fresh.push(entry);
        }
        i += 1;
    }
    assert(before.take(before.len() as int) =~= before);
    let start = if fresh.len() > max {
        fresh.len() - max
    } else {
        0
    };
    let mut recent: Vec<(u64, u64)> = Vec::new();
    let mut j: usize = start;
    while j < fresh.len()
        invariant
            start <= j <= fresh@.len(),
            recent@ == fresh@.subrange(start as int, j as int),
        decreases fresh.len() - j,
    {
        recent.push(fresh[j]);
        j += 1;
    }
    proof {
        let f = fresh_entries(before, now, ttl);
        assert(fresh@ == f);
        assert(recent@ == newest(f, max as nat)) by {
            if f.len() <= max {
                assert(f.subrange(0, f.len() as int) =~= f);
            }
        }
        assert(keys_distinct(recent@)) by {
            assert forall|a: int, b: int| 0 <= a < b < recent@.len() implies #[trigger] recent@[a].0
                != #[trigger] recent@[b].0 by {
                assert(recent@[a] == f[start + a]);
                assert(recent@[b] == f[start + b]);
            }
        }
    }
    recent
}

impl TimedRequestSet {
    #[verifier::type_invariant]
    closed spec fn well_formed(self) -> bool {
        &&& keys_distinct(self@)
        &&& forall|k: u64| self.requested@.contains_key(k) <==> self.requested_order@.contains(k)
        &&& self.requested_order@.len() <= self.max_requested
    }

    pub closed spec fn ttl(self) -> u64 {
        self.ttl
    }

    pub closed spec fn max_requested(self) -> nat {
        self.max_requested as nat
    }

    pub fn new(ttl: u64, max_requested: usize) -> (set: Self)
        ensures
            set@.len() == 0,
            set.ttl() == ttl,
            set.max_requested() == max_requested,
    {
        let set = TimedRequestSet {
            requested: HashMap::new(),
            requested_order: VecDeque::new(),
            ttl,
            max_requested,
        };
        assert(set@ =~= Seq::<(u64, u64)>::empty());
        set
    }

    /// The remembered requests, oldest first.
    fn entries(&self) -> (entries: Vec<(u64, u64)>)
        ensures
            entries@ == self@,
            keys_distinct(entries@),
            entries@.len() <= self.max_requested(),
    {
        proof {
            use_type_invariant(self);
        }
        let mut entries: Vec<(u64, u64)> = Vec::new();
        let mut i: usize = 0;
        while i < self.requested_order.len()
            invariant
                i <= self.requested_order@.len(),
                entries@ == self@.take(i as int),
                forall|k: u64| self.requested@.contains_key(k) <==> self.requested_order@.contains(k),
            decreases self.requested_order.len() - i,
        {
            let key = self.requested_order[i];
            proof {
                assert(self.requested_order@[i as int] == key);
                assert(self.requested_order@.contains(key));
            }
            let at = match self.requested.get(&key) {
                Some(t) => *t,
                None => 0,
            };
            entries.push((key, at));
            assert(entries@ =~= self@.take(i + 1));
            i += 1;
        }
        assert(self@.take(self@.len() as int) =~= self@);
        entries
    }

    /// Remembers a request for `key` made at `now`, unless one is already
    /// remembered; then prunes. Tells whether the request is new. A new
    /// request is remembered afterwards exactly when the set may hold any
    /// request at all.
    pub fn insert(&mut self, key: u64, now: u64) -> (inserted: bool)
        ensures
            inserted == !has_key(old(self)@, key),
            !inserted ==> *final(self) == *old(self),
            inserted ==> final(self)@ == pruned(
                old(self)@.push((key, now)),
                now,
                old(self).ttl(),
                old(self).max_requested(),
            ),
            inserted ==> (has_key(final(self)@, key) <==> old(self).max_requested() >= 1),
            final(self).ttl() == old(self).ttl(),
            final(self).max_requested() == old(self).max_requested(),
            keys_distinct(final(self)@),
            final(self)@.len() <= final(self).max_requested(),
    {
        if self.contains(key) {
            return false;
        }
        let ghost before = self@;
        let mut requested = self.entries();
        requested.push((key, now));
        proof {
            assert(requested@ == before.push((key, now)));
            assert forall|i: int, j: int| 0 <= i < j < requested@.len() implies #[trigger] requested@[i].0
                != #[trigger] requested@[j].0 by {
                if j == before.len() {
                    assert(requested@[i] == before[i]);
                    assert(!(before[i].0 == key));
                }
            }
        }
        let kept = pruned_requests(requested, now, self.ttl, self.max_requested);
        proof {
            if self.max_requested >= 1 {
                lemma_inserted_request_is_remembered(before, key, now, self.ttl, self.max_requested as nat);
            } else {
                assert(!has_key(kept@, key));
            }
        }
        self.replace_entries(&kept);
        true
    }

    /// Makes `entries` the remembered requests.
    fn replace_entries(&mut self, entries: &Vec<(u64, u64)>)
        requires
            keys_distinct(entries@),
            entries@.len() <= old(self).max_requested(),
        ensures
            final(self)@ == entries@,
            final(self).ttl() == old(self).ttl(),
            final(self).max_requested() == old(self).max_requested(),
    {
        let (requested, requested_order) = stores_of(entries);
        *self = TimedRequestSet {
            requested,
            requested_order,
            ttl: self.ttl,
            max_requested: self.max_requested,
        };
    }

    /// Whether a request for `key` is remembered.
    pub fn contains(&self, key: u64) -> (found: bool)
        ensures
            found == has_key(self@, key),
            keys_distinct(self@),
            self@.len() <= self.max_requested(),
    {
        proof {
            use_type_invariant(self);
        }
        let found = self.requested.contains_key(&key);
        proof {
            if self.requested_order@.contains(key) {
                let w = choose|w: int|
                    0 <= w < self.requested_order@.len() && self.requested_order@[w] == key;
                assert(self@[w].0 == key);
            }
            if has_key(self@, key) {
                let w = choose|w: int| 0 <= w < self@.len() && #[trigger] self@[w].0 == key;
                assert(self.requested_order@[w] == key);
            }
        }
        found
    }

    /// Forgets the request for `key`.
    pub fn remove(&mut self, key: u64)
        ensures
            final(self)@ == without_key(old(self)@, key),
            final(self).ttl() == old(self).ttl(),
            final(self).max_requested() == old(self).max_requested(),
            keys_distinct(final(self)@),
            final(self)@.len() <= final(self).max_requested(),
    {
        let requested = self.entries();
        proof {
            lemma_without_key(requested@, key);
        }
        let mut kept: Vec<(u64, u64)> = Vec::new();
        let mut i: usize = 0;
        assert(requested@.take(0) =~= Seq::<(u64, u64)>::empty());
        while i < requested.len()
            invariant
                i <= requested@.len(),
                kept@ == without_key(requested@.take(i as int), key),
                kept@.len() <= i,
            decreases requested.len() - i,
        {
            let entry = requested[i];
            assert(requested@.take(i + 1).drop_last() =~= requested@.take(i as int));
            if entry.0 != key {
                kept.push(entry);
            }
            i += 1;
        }
        assert(requested@.take(requested@.len() as int) =~= requested@);
        self.replace_entries(&kept);
    }

    /// Drops requests older than the time to live at `now`, then the oldest
    /// ones while more than `max_requested` remain.
    pub fn prune(&mut self, now: u64)
        ensures
            final(self)@ == pruned(old(self)@, now, old(self).ttl(), old(self).max_requested()),
            final(self).ttl() == old(self).ttl(),
            final(self).max_requested() == old(self).max_requested(),
            keys_distinct(final(self)@),
            final(self)@.len() <= final(self).max_requested(),
    {
        let requested = self.entries();
        let kept = pruned_requests(requested, now, self.ttl, self.max_requested);
        self.replace_entries(&kept);
    }
}

/// Selecting the same key twice in a row: the second selection reports no
/// change, whatever came before.
pub proof fn lemma_repeated_select_is_no_change(last: Option<u64>, key: u64)
    ensures
        !selection_after(selection_after(last, key).0, key).1,
{
}

/// Right after `clear`, every selection reports a change.
pub proof fn lemma_select_after_clear_is_change(key: u64)
    ensures
        selection_after(None, key).1,
{
}

/// Two selections in a row: the second reports a change exactly when it
/// picks a different key, and the last selection is the second key.
pub proof fn lemma_select_compares_with_previous_selection(last: Option<u64>, first: u64, second: u64)
    ensures
        selection_after(selection_after(last, first).0, second) == (Some(second), first != second),
{
}

/// Pruning never leaves more than `max` requests.
pub proof fn lemma_pruned_is_bounded(entries: Seq<(u64, u64)>, now: u64, ttl: u64, max: nat)
    ensures
        pruned(entries, now, ttl, max).len() <= max,
{
}

/// Every request that survives pruning is fresh and was remembered before.
pub proof fn lemma_pruned_keeps_only_fresh_requests(
    entries: Seq<(u64, u64)>,
    now: u64,
    ttl: u64,
    max: nat,
)
    ensures
        forall|i: int|
            0 <= i < pruned(entries, now, ttl, max).len() ==> is_fresh(
                #[trigger] pruned(entries, now, ttl, max)[i].1,
                now,
                ttl,
            ) && entries.contains(pruned(entries, now, ttl, max)[i]),
{
    lemma_fresh_entries(entries, now, ttl);
    let f = fresh_entries(entries, now, ttl);
    let p = pruned(entries, now, ttl, max);
    assert forall|i: int| 0 <= i < p.len() implies is_fresh(#[trigger] p[i].1, now, ttl)
        && entries.contains(p[i]) by {
        if f.len() > max {
            assert(p[i] == f[f.len() - max + i]);
        }
    }
}

/// A request that was just inserted is remembered, as long as the set may
/// hold at least one request.
pub proof fn lemma_inserted_request_is_remembered(
    entries: Seq<(u64, u64)>,
    key: u64,
    now: u64,
    ttl: u64,
    max: nat,
)
    requires
        max >= 1,
    ensures
        has_key(pruned(entries.push((key, now)), now, ttl, max), key),
{
    let s = entries.push((key, now));
    assert(s.drop_last() == entries);
    let f = fresh_entries(s, now, ttl);
    assert(f.last() == (key, now));
    assert(f.len() >= 1);
    let p = pruned(s, now, ttl, max);
    assert(p.len() >= 1);
    assert(p[p.len() - 1] == f[f.len() - 1]);
    assert(p[p.len() - 1].0 == key);
}

/// A removed request is no longer remembered, and the others stay.
pub proof fn lemma_removed_request_is_forgotten(entries: Seq<(u64, u64)>, key: u64, other: u64)
    requires
        other != key,
    ensures
        !has_key(without_key(entries, key), key),
        has_key(without_key(entries, key), other) == has_key(entries, other),
{
    lemma_without_key(entries, key);
}

/// A request exactly the time to live old is still fresh, one a unit older
/// is stale, and one from the future is fresh.
pub proof fn lemma_freshness_boundary(requested_at: u64, ttl: u64, now: u64)
    ensures
        requested_at + ttl <= u64::MAX ==> is_fresh(requested_at, (requested_at + ttl) as u64, ttl),
        now >= requested_at && now - requested_at > ttl ==> !is_fresh(requested_at, now, ttl),
        now >= requested_at && now - requested_at <= ttl ==> is_fresh(requested_at, now, ttl),
        now < requested_at ==> is_fresh(requested_at, now, ttl),
{
}

/// Dropping stale requests keeps every fresh one.
pub proof fn lemma_fresh_requests_are_kept(entries: Seq<(u64, u64)>, now: u64, ttl: u64, i: int)
    requires
        0 <= i < entries.len(),
        is_fresh(entries[i].1, now, ttl),
    ensures
        fresh_entries(entries, now, ttl).contains(entries[i]),
    decreases entries.len(),
{
    let init = entries.drop_last();
    let rest = fresh_entries(init, now, ttl);
    if i == entries.len() - 1 {
        assert(fresh_entries(entries, now, ttl) == rest.push(entries.last()));
        assert(fresh_entries(entries, now, ttl)[rest.len() as int] == entries[i]);
    } else {
        assert(init[i] == entries[i]);
        lemma_fresh_requests_are_kept(init, now, ttl, i);
        let w = choose|w: int| 0 <= w < rest.len() && rest[w] == entries[i];
        if is_fresh(entries.last().1, now, ttl) {
            assert(fresh_entries(entries, now, ttl)[w] == rest[w]);
        }
    }
}

/// Beyond the limit, pruning keeps the newest fresh requests, not the
/// oldest: the kept requests are the last `max` fresh ones, in order, or all
/// of them when there are no more than `max`.
pub proof fn lemma_pruning_keeps_the_newest(entries: Seq<(u64, u64)>, now: u64, ttl: u64, max: nat)
    ensures
        ({
            let fresh = fresh_entries(entries, now, ttl);
            let kept = pruned(entries, now, ttl, max);
            &&& kept.len() == (if fresh.len() > max {
                max as int
            } else {
                fresh.len() as int
            })
            &&& forall|i: int|
                0 <= i < kept.len() ==> #[trigger] kept[i] == fresh[fresh.len() - kept.len() + i]
        }),
{
}

/// The remembered requests, in order, are the keys in request order, each
/// with the time it was requested at.
pub proof fn lemma_entries_in_order(order: Seq<u64>, times: Map<u64, u64>, i: int)
    requires
        0 <= i < order.len(),
    ensures
        entries_in_order(order, times).len() == order.len(),
        entries_in_order(order, times)[i] == (order[i], times[order[i]]),
{
}

/// A key is remembered when some entry has it, and keys are distinct when
/// no two entries share one.
pub proof fn lemma_key_lookup(entries: Seq<(u64, u64)>, key: u64, i: int, j: int)
    ensures
        0 <= i < entries.len() && entries[i].0 == key ==> has_key(entries, key),
        has_key(entries, key) ==> exists|k: int| 0 <= k < entries.len() && entries[k].0 == key,
        keys_distinct(entries) && 0 <= i < j < entries.len() ==> entries[i].0 != entries[j].0,
        !has_key(Seq::<(u64, u64)>::empty(), key),
{
}

} // verus!
