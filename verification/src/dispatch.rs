use vstd::prelude::*;

use crate::debounce::{spec_accepts, DebounceLedger};
use crate::pathnames::{has_tracked_extension, is_tracked_path, normalize_key, normalized_key};

verus! {

/// The view of an optional canonical path string.
pub open spec fn opt_view(o: &Option<String>) -> Option<Seq<char>> {
    match o {
        Some(s) => Some(s@),
        None => None,
    }
}

/// The debounce key of one raw event path: the canonical form when
/// canonicalization succeeded, the raw path otherwise, with any
/// extended-path prefix stripped.
pub open spec fn debounce_key(raw: Seq<char>, canonical: Option<Seq<char>>) -> Seq<char> {
    match canonical {
        Some(c) => normalized_key(c),
        None => normalized_key(raw),
    }
}

/// Derives the debounce key for one event path.
pub fn event_key(raw: &String, canonical: &Option<String>) -> (r: String)
    ensures
        r@ == debounce_key(raw@, opt_view(canonical)),
{
    match canonical {
        Some(c) => normalize_key(c.as_str()),
        None => normalize_key(raw.as_str()),
    }
}

/// The per-path decision of the event dispatcher: the debounce key when the
/// path carries the tracked extension and passes the debounce filter, and
/// nothing otherwise.
pub open spec fn dispatch_decision(
    m: Map<Seq<char>, u64>,
    raw: Seq<char>,
    canonical: Option<Seq<char>>,
    now: int,
    interval: int,
) -> Option<Seq<char>> {
    if is_tracked_path(raw) && spec_accepts(m, debounce_key(raw, canonical), now, interval) {
        Some(debounce_key(raw, canonical))
    } else {
        None
    }
}

/// Decides one raw event path: filters on the tracked extension, derives
/// the debounce key, and applies the debounce rule. Returns the key to
/// extract under when the event is accepted; a suppressed or irrelevant
/// event leaves the ledger unchanged.
pub fn handle_event_path(
    ledger: &mut DebounceLedger,
    raw: &String,
    canonical: &Option<String>,
    now: u64,
    interval: u64,
) -> (r: Option<String>)
    requires
        old(ledger).wf(),
    ensures
        final(ledger).wf(),
        r matches Some(k) ==> (dispatch_decision(
            old(ledger)@,
            raw@,
            opt_view(canonical),
            now as int,
            interval as int,
        ) matches Some(s) && k@ == s),
        r is None ==> dispatch_decision(
            old(ledger)@,
            raw@,
            opt_view(canonical),
            now as int,
            interval as int,
        ) is None,
        r is Some ==> final(ledger)@ == old(ledger)@.insert(
            debounce_key(raw@, opt_view(canonical)),
            now,
        ),
        r is None ==> final(ledger)@ == old(ledger)@,
{
    if !has_tracked_extension(raw.as_str()) {
        return None;
    }
    let key = event_key(raw, canonical);
    if ledger.accept(&key, now, interval) {
        Some(key)
    } else {
        None
    }
}

/// Two raw paths that canonicalize to the same string share one debounce
/// entry: the key depends on the canonical form alone.
pub proof fn lemma_same_canonical_same_key(r1: Seq<char>, r2: Seq<char>, c: Seq<char>)
    ensures
        debounce_key(r1, Some(c)) == debounce_key(r2, Some(c)),
{
}

/// Once one event for a canonical path is accepted at `t1`, any further
/// event for the same canonical path arriving before `t1 + interval` is
/// dispatched to nothing, whatever raw alias names it: within one
/// debounce window, one logical save triggers exactly one extraction.
pub proof fn lemma_dispatch_coalesces(
    m: Map<Seq<char>, u64>,
    raw1: Seq<char>,
    raw2: Seq<char>,
    c: Seq<char>,
    t1: u64,
    t2: u64,
    interval: u64,
)
    requires
        t2 < t1 + interval,
    ensures
        dispatch_decision(
            m.insert(debounce_key(raw1, Some(c)), t1),
            raw2,
            Some(c),
            t2 as int,
            interval as int,
        ) is None,
{
}

/// Once the debounce interval has elapsed, the next event for the same
/// canonical path is dispatched again: two events further apart than the
/// interval trigger two extractions.
pub proof fn lemma_dispatch_second_event_elapsed(
    m: Map<Seq<char>, u64>,
    raw1: Seq<char>,
    raw2: Seq<char>,
    c: Seq<char>,
    t1: u64,
    t2: u64,
    interval: u64,
)
    requires
        is_tracked_path(raw2),
        t2 >= t1 + interval,
    ensures
        dispatch_decision(
            m.insert(debounce_key(raw1, Some(c)), t1),
            raw2,
            Some(c),
            t2 as int,
            interval as int,
        ) is Some,
{
}

} // verus!
