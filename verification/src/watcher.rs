use vstd::prelude::*;

verus! {

/// One requested monitoring setup: directory paths and debounce interval,
/// compared by value and replaced atomically, never mutated in place.
pub struct WatchConfig {
    pub paths: Vec<String>,
    pub interval: u64,
}

impl WatchConfig {
    /// The configuration as a value: the path strings and the interval.
    pub open spec fn view_paths(&self) -> Seq<Seq<char>> {
        self.paths@.map_values(|p: String| p@)
    }
}

/// What the caller must do with the OS-level monitor after a
/// reconfiguration decision.
#[derive(Debug, PartialEq, Eq, Structural)]
pub enum WatchAction {
    /// The configuration is unchanged: keep the active monitor running.
    Unchanged,
    /// Drop the active monitor; nothing replaces it.
    Stopped,
    /// Drop any active monitor and install a fresh one for the new
    /// configuration.
    Restarted,
}

/// The session's record of the monitor it keeps: at most one is active,
/// and it is bound to exactly one configuration.
pub struct WatcherState {
    pub active_config: Option<WatchConfig>,
}

impl View for WatcherState {
    type V = Option<(Seq<Seq<char>>, u64)>;

    open spec fn view(&self) -> Option<(Seq<Seq<char>>, u64)> {
        match self.active_config {
            Some(c) => Some((c.view_paths(), c.interval)),
            None => None,
        }
    }
}

/// The reconfiguration step as a value transition: the new session state
/// and the action the caller owes the OS-level monitor. An empty directory
/// set means "not watching", a valid terminal state; an unchanged
/// configuration is left alone; anything else replaces the monitor.
pub open spec fn spec_reconfigure(
    active: Option<(Seq<Seq<char>>, u64)>,
    paths: Seq<Seq<char>>,
    interval: u64,
) -> (Option<(Seq<Seq<char>>, u64)>, WatchAction) {
    if paths.len() == 0 {
        if active is None {
            (None, WatchAction::Unchanged)
        } else {
            (None, WatchAction::Stopped)
        }
    } else if active == Some((paths, interval)) {
        (active, WatchAction::Unchanged)
    } else {
        (Some((paths, interval)), WatchAction::Restarted)
    }
}

fn paths_equal(a: &Vec<String>, b: &Vec<String>) -> (r: bool)
    ensures
        r == (a@.map_values(|p: String| p@) == b@.map_values(|p: String| p@)),
{
    let ghost av = a@.map_values(|p: String| p@);
    let ghost bv = b@.map_values(|p: String| p@);
    if a.len() != b.len() {
        proof {
            assert(av.len() != bv.len());
        }
        return false;
    }
    let n = a.len();
    let mut i: usize = 0;
    while i < n
        invariant
            i <= n,
            n == a@.len() && n == b@.len(),
            av == a@.map_values(|p: String| p@),
            bv == b@.map_values(|p: String| p@),
            forall|j: int| 0 <= j < i ==> av[j] == bv[j],
        decreases n - i,
    {
        if !(a[i] == b[i]) {
            proof {
                assert(av[i as int] != bv[i as int]);
            }
            return false;
        }
        i += 1;
    }
    proof {
        assert(av =~= bv);
    }
    true
}

impl WatcherState {
    /// A session that is not watching.
    pub fn new() -> (r: WatcherState)
        ensures
            r@ is None,
    {
        WatcherState { active_config: None }
    }

    /// Decides one reconfiguration request and records the new state. An
    /// identical active configuration is a no-op; an empty directory set
    /// tears the monitor down; otherwise the caller must replace the
    /// monitor with one for the returned configuration.
    pub fn update_watch_paths(&mut self, paths: Vec<String>, interval: u64) -> (a: WatchAction)
        ensures
            final(self)@ == spec_reconfigure(
                old(self)@,
                paths@.map_values(|p: String| p@),
                interval,
            ).0,
            a == spec_reconfigure(old(self)@, paths@.map_values(|p: String| p@), interval).1,
    {
        let ghost pv = paths@.map_values(|p: String| p@);
        if paths.len() == 0 {
            proof {
                assert(pv.len() == 0);
            }
            let was_active = self.active_config.is_some();
            self.active_config = None;
            if was_active {
                return WatchAction::Stopped;
            } else {
                return WatchAction::Unchanged;
            }
        }
        let same = match &self.active_config {
            Some(c) => c.interval == interval && paths_equal(&c.paths, &paths),
            None => false,
        };
        if same {
            return WatchAction::Unchanged;
        }
        self.active_config = Some(WatchConfig { paths, interval });
        WatchAction::Restarted
    }

    /// When the OS monitor cannot be created, the session is left in the
    /// "not watching" state: no partial monitor is recorded.
    pub fn mark_watch_failed(&mut self)
        ensures
            final(self)@ is None,
    {
        self.active_config = None;
    }
}

/// Reconfiguring with the configuration that a reconfiguration just
/// installed performs no further teardown or setup: the second call leaves
/// the state untouched and asks the caller to do nothing.
pub proof fn lemma_reconfigure_idempotent(
    active: Option<(Seq<Seq<char>>, u64)>,
    paths: Seq<Seq<char>>,
    interval: u64,
)
    ensures
        spec_reconfigure(
            spec_reconfigure(active, paths, interval).0,
            paths,
            interval,
        ).1 == WatchAction::Unchanged,
        spec_reconfigure(spec_reconfigure(active, paths, interval).0, paths, interval).0
            == spec_reconfigure(active, paths, interval).0,
{
}

/// Reconfiguring to an empty directory set always leaves the session with
/// no active monitor, whatever was active before.
pub proof fn lemma_empty_reconfigure_stops(active: Option<(Seq<Seq<char>>, u64)>, interval: u64)
    ensures
        spec_reconfigure(active, Seq::<Seq<char>>::empty(), interval).0 is None,
{
}

} // verus!
