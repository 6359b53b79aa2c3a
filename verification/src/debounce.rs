use vstd::prelude::*;
use vstd::pervasive::VecAdditionalExecFns;

verus! {

/// One remembered path with the time of its last accepted event.
pub struct LedgerEntry {
    pub key: String,
    pub stamp: u64,
}

/// The mapping that a sequence of ledger entries holds; a later entry for
/// the same key overrides an earlier one.
pub open spec fn ledger_map(s: Seq<LedgerEntry>) -> Map<Seq<char>, u64>
    decreases s.len(),
{
    if s.len() == 0 {
        Map::empty()
    } else {
        ledger_map(s.drop_last()).insert(s.last().key@, s.last().stamp)
    }
}

proof fn lemma_ledger_map_contains(s: Seq<LedgerEntry>, k: Seq<char>)
    ensures
        ledger_map(s).contains_key(k) <==> exists|i: int| 0 <= i < s.len() && s[i].key@ == k,
    decreases s.len(),
{
    if s.len() != 0 {
        lemma_ledger_map_contains(s.drop_last(), k);
        if s.last().key@ == k {
            assert(s[s.len() - 1].key@ == k);
        } else if ledger_map(s).contains_key(k) {
            let i = choose|i: int| 0 <= i < s.drop_last().len() && s.drop_last()[i].key@ == k;
            assert(s[i].key@ == k);
        } else {
            assert forall|i: int| 0 <= i < s.len() implies s[i].key@ != k by {
                if i < s.len() - 1 {
                    assert(s.drop_last()[i].key@ == s[i].key@);
                }
            }
        }
    }
}

/// No two entries name the same key.
pub open spec fn unique_keys(s: Seq<LedgerEntry>) -> bool {
    forall|i: int, j: int| 0 <= i < j < s.len() ==> s[i].key@ != s[j].key@
}

proof fn lemma_ledger_map_value(s: Seq<LedgerEntry>, i: int)
    requires
        unique_keys(s),
        0 <= i < s.len(),
    ensures
        ledger_map(s).contains_key(s[i].key@),
        ledger_map(s)[s[i].key@] == s[i].stamp,
    decreases s.len(),
{
    if i == s.len() - 1 {
    } else {
        assert(s.drop_last()[i] == s[i]);
        lemma_ledger_map_value(s.drop_last(), i);
        assert(s.last().key@ != s[i].key@);
    }
}

proof fn lemma_ledger_map_update(s: Seq<LedgerEntry>, i: int, e: LedgerEntry)
    requires
        unique_keys(s),
        0 <= i < s.len(),
        e.key@ == s[i].key@,
    ensures
        ledger_map(s.update(i, e)) == ledger_map(s).insert(e.key@, e.stamp),
    decreases s.len(),
{
    let t = s.update(i, e);
    if i == s.len() - 1 {
        assert(t.drop_last() =~= s.drop_last());
        assert(t.last() == e);
        assert(ledger_map(t) == ledger_map(s.drop_last()).insert(e.key@, e.stamp));
        assert(ledger_map(s.drop_last()).insert(e.key@, e.stamp) =~= ledger_map(s).insert(
            e.key@,
            e.stamp,
        ));
    } else {
        assert(t.drop_last() =~= s.drop_last().update(i, e));
        assert(t.last() == s.last());
        lemma_ledger_map_update(s.drop_last(), i, e);
        assert(s.drop_last()[i] == s[i]);
        assert(s.last().key@ != e.key@);
        assert(ledger_map(s.drop_last()).insert(e.key@, e.stamp).insert(
            s.last().key@,
            s.last().stamp,
        ) =~= ledger_map(s.drop_last()).insert(s.last().key@, s.last().stamp).insert(
            e.key@,
            e.stamp,
        ));
    }
}

/// Whether an event at time `now` passes the debounce filter, given the
/// mapping of last-processed times: it passes when the key was never seen,
/// or when at least `interval` has elapsed since its recorded time.
pub open spec fn spec_accepts(m: Map<Seq<char>, u64>, key: Seq<char>, now: int, interval: int) -> bool {
    !m.contains_key(key) || now >= m[key] + interval
}

/// Per-path record of the last accepted event time, keyed by normalized
/// path. Entries are never pruned; an entry's time never decreases.
pub struct DebounceLedger {
    entries: Vec<LedgerEntry>,
}

impl View for DebounceLedger {
    type V = Map<Seq<char>, u64>;

    closed spec fn view(&self) -> Map<Seq<char>, u64> {
        ledger_map(self.entries@)
    }
}

impl DebounceLedger {
    /// Internal shape: one entry per key.
    pub closed spec fn wf(&self) -> bool {
        unique_keys(self.entries@)
    }

    /// An empty ledger.
    pub fn new() -> (r: DebounceLedger)
        ensures
            r@ == Map::<Seq<char>, u64>::empty(),
            r.wf(),
    {
        DebounceLedger { entries: Vec::new() }
    }

    /// Applies the debounce rule for one event: suppressed events leave the
    /// ledger unchanged; an accepted event records `now` for its key.
    pub fn accept(&mut self, key: &String, now: u64, interval: u64) -> (b: bool)
        requires
            old(self).wf(),
        ensures
            final(self).wf(),
            b == spec_accepts(old(self)@, key@, now as int, interval as int),
            b ==> final(self)@ == old(self)@.insert(key@, now),
            !b ==> final(self)@ == old(self)@,
    {
        let n = self.entries.len();
        let mut i: usize = 0;
        while i < n
            invariant
                i <= n,
                *self == *old(self),
                old(self).wf(),
                n == self.entries@.len(),
                forall|j: int| 0 <= j < i ==> self.entries@[j].key@ != key@,
            decreases n - i,
        {
            if self.entries[i].key == *key {
                let t = self.entries[i].stamp;
                proof {
                    lemma_ledger_map_value(self.entries@, i as int);
                }
                if interval <= now && t <= now - interval {
                    let e = LedgerEntry { key: key.clone(), stamp: now };
                    proof {
                        lemma_ledger_map_update(self.entries@, i as int, e);
                    }
                    self.entries.set(i, e);
                    proof {
                        assert forall|a: int, b: int|
                            0 <= a < b < self.entries@.len() implies self.entries@[a].key@
                            != self.entries@[b].key@ by {
                            assert(old(self).entries@[a].key@ != old(self).entries@[b].key@);
                        }
                    }
                    return true;
                } else {
                    return false;
                }
            }
            i += 1;
        }
        proof {
            lemma_ledger_map_contains(self.entries@, key@);
            assert(!old(self)@.contains_key(key@));
        }
        self.entries.push(LedgerEntry { key: key.clone(), stamp: now });
        proof {
            assert(self.entries@.drop_last() =~= old(self).entries@);
            assert(self.entries@.last().key@ == key@);
            assert forall|a: int, b: int|
                0 <= a < b < self.entries@.len() implies self.entries@[a].key@
                != self.entries@[b].key@ by {
                if b < self.entries@.len() - 1 {
                    assert(old(self).entries@[a].key@ != old(self).entries@[b].key@);
                } else {
                    assert(old(self).entries@[a].key@ != key@);
                }
            }
        }
        true
    }
}

/// Within one debounce window, a second event for the same key is
/// suppressed: once an event is accepted at `t1`, any event for that key
/// arriving before `t1 + interval` is rejected, so one logical save
/// triggers exactly one extraction.
pub proof fn lemma_debounce_coalesces(
    m: Map<Seq<char>, u64>,
    key: Seq<char>,
    t1: u64,
    t2: u64,
    interval: u64,
)
    requires
        t2 < t1 + interval,
    ensures
        !spec_accepts(m.insert(key, t1), key, t2 as int, interval as int),
{
}

/// Once the debounce interval has elapsed, the next event for the key is
/// accepted again: two events further apart than the interval trigger two
/// extractions.
pub proof fn lemma_debounce_elapsed(
    m: Map<Seq<char>, u64>,
    key: Seq<char>,
    t1: u64,
    t2: u64,
    interval: u64,
)
    requires
        t2 >= t1 + interval,
    ensures
        spec_accepts(m.insert(key, t1), key, t2 as int, interval as int),
{
}

/// An accepted event never moves a key's recorded time backwards: the new
/// time is at least the interval past the old one.
pub proof fn lemma_ledger_monotonic(
    m: Map<Seq<char>, u64>,
    key: Seq<char>,
    now: u64,
    interval: u64,
)
    requires
        spec_accepts(m, key, now as int, interval as int),
        m.contains_key(key),
    ensures
        m.insert(key, now)[key] >= m[key],
{
}

} // verus!
