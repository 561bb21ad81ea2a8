//! Debounced certificate-watcher state machine.
//!
//! The watcher observes filesystem events under the certificates directory
//! and triggers a rebuild of the TLS configuration. Qualifying events (a
//! create or modify touching a `.pem` file) only mark a reload as pending;
//! a periodic tick performs the reload once the debounce window has elapsed
//! since the last one, so a burst of events collapses into a single reload.
//! The surrounding loop that delivers events and ticks, and the reload work
//! itself, live outside this crate; the decisions live here.

use vstd::prelude::*;

verus! {

use vstd::string::StrSliceExecFns;

/// How long after a reload the next one may run, in milliseconds.
pub const DEBOUNCE_MS: u64 = 2000;

/// How often the debounce condition is polled, in milliseconds.
pub const POLL_TICK_MS: u64 = 500;

/// Kind of a filesystem change event, as the watcher classifies it.
#[derive(Debug, Clone, Copy, PartialEq, Eq, Structural)]
pub enum FsEventKind {
    Create,
    Modify,
    Remove,
    Other,
}

/// Whether a path names a file with the `pem` extension: it ends in `.pem`
/// and the file name is more than the extension alone.
pub open spec fn has_pem_extension(p: Seq<char>) -> bool {
    &&& p.len() >= 5
    &&& p[p.len() - 4] == '.'
    &&& p[p.len() - 3] == 'p'
    &&& p[p.len() - 2] == 'e'
    &&& p[p.len() - 1] == 'm'
    &&& p[p.len() - 5] != '/'
}

/// A qualifying event is a create or modify whose paths touch a `.pem` file.
pub open spec fn spec_qualifying(kind: FsEventKind, paths: Seq<Seq<char>>) -> bool {
    &&& (kind == FsEventKind::Create || kind == FsEventKind::Modify)
    &&& exists|i: int| 0 <= i < paths.len() && has_pem_extension(paths[i])
}

fn path_has_pem_extension(p: &str) -> (b: bool)
    ensures
        b == has_pem_extension(p@),
{
    let n: usize = p.unicode_len();
    n >= 5 && p.get_char(n - 4) == '.' && p.get_char(n - 3) == 'p' && p.get_char(n - 2) == 'e'
        && p.get_char(n - 1) == 'm' && p.get_char(n - 5) != '/'
}

/// Whether an event with this kind and these paths qualifies for a reload.
pub fn is_qualifying_event(kind: FsEventKind, paths: &Vec<String>) -> (b: bool)
    ensures
        b == spec_qualifying(kind, paths@.map_values(|s: String| s@)),
{
    let mut found = false;
    let mut i: usize = 0;
    while i < paths.len()
        invariant
            i <= paths.len(),
            found == exists|j: int| 0 <= j < i && #[trigger] has_pem_extension(paths@[j]@),
        decreases paths.len() - i,
    {
        if path_has_pem_extension(paths[i].as_str()) {
            proof {
                assert(has_pem_extension(paths@[i as int]@));
            }
            found = true;
        }
        i = i + 1;
    }
    proof {
        let m = paths@.map_values(|s: String| s@);
        if exists|j: int| 0 <= j < paths@.len() && #[trigger] has_pem_extension(paths@[j]@) {
            let j = choose|j: int| 0 <= j < paths@.len() && #[trigger] has_pem_extension(
                paths@[j]@,
            );
            assert(has_pem_extension(m[j]));
        }
        if exists|j: int| 0 <= j < m.len() && #[trigger] has_pem_extension(m[j]) {
            let j = choose|j: int| 0 <= j < m.len() && #[trigger] has_pem_extension(m[j]);
            assert(has_pem_extension(paths@[j]@));
        }
    }
    match kind {
        FsEventKind::Create => found,
        FsEventKind::Modify => found,
        _ => false,
    }
}

/// The watcher's transient reload state: whether a qualifying event is
/// awaiting a reload, and when the last reload ran (milliseconds on a
/// monotonic clock).
#[derive(Debug, Clone, Copy, PartialEq, Eq, Structural)]
pub struct WatcherState {
    pub pending_reload: bool,
    pub last_reload_ms: u64,
}

impl WatcherState {
    /// The state an event leaves behind: a qualifying event marks a reload
    /// as pending, anything else changes nothing.
    pub open spec fn spec_observe(self, kind: FsEventKind, paths: Seq<Seq<char>>) -> WatcherState {
        if spec_qualifying(kind, paths) {
            WatcherState { pending_reload: true, last_reload_ms: self.last_reload_ms }
        } else {
            self
        }
    }

    /// A reload is due only if one is pending and the debounce window has
    /// elapsed since the last reload.
    pub open spec fn spec_should_reload(self, now_ms: u64) -> bool {
        self.pending_reload && now_ms >= self.last_reload_ms + DEBOUNCE_MS
    }

    /// The state after a tick at `now_ms`: a due reload resets the pending
    /// flag and stamps the reload time; otherwise nothing changes.
    pub open spec fn spec_tick(self, now_ms: u64) -> WatcherState {
        if self.spec_should_reload(now_ms) {
            WatcherState { pending_reload: false, last_reload_ms: now_ms }
        } else {
            self
        }
    }

    /// Fresh state with nothing pending, as of `now_ms`.
    pub fn new(now_ms: u64) -> (s: Self)
        ensures
            s == (WatcherState { pending_reload: false, last_reload_ms: now_ms }),
    {
        WatcherState { pending_reload: false, last_reload_ms: now_ms }
    }

    /// Feeds one filesystem event into the state.
    pub fn observe_event(&mut self, kind: FsEventKind, paths: &Vec<String>)
        ensures
            *final(self) == old(self).spec_observe(kind, paths@.map_values(|s: String| s@)),
    {
        if is_qualifying_event(kind, paths) {
            self.pending_reload = true;
        }
    }

    /// One debounce poll at `now_ms`; returns whether a reload attempt must
    /// run now. The clock is monotonic, so `now_ms` never precedes the last
    /// reload time.
    pub fn on_tick(&mut self, now_ms: u64) -> (reload: bool)
        requires
            old(self).last_reload_ms <= now_ms,
        ensures
            reload == old(self).spec_should_reload(now_ms),
            *final(self) == old(self).spec_tick(now_ms),
    {
        if self.pending_reload && now_ms - self.last_reload_ms >= DEBOUNCE_MS {
            self.pending_reload = false;
            self.last_reload_ms = now_ms;
            true
        } else {
            false
        }
    }
}

/// The state a whole sequence of events leaves behind.
pub open spec fn spec_observe_all(
    s: WatcherState,
    events: Seq<(FsEventKind, Seq<Seq<char>>)>,
) -> WatcherState
    decreases events.len(),
{
    if events.len() == 0 {
        s
    } else {
        spec_observe_all(s.spec_observe(events[0].0, events[0].1), events.skip(1))
    }
}

proof fn lemma_observe_all_qualifying(s: WatcherState, events: Seq<(FsEventKind, Seq<Seq<char>>)>)
    requires
        events.len() > 0,
        forall|i: int| 0 <= i < events.len() ==> spec_qualifying(events[i].0, events[i].1),
    ensures
        spec_observe_all(s, events) == (WatcherState {
            pending_reload: true,
            last_reload_ms: s.last_reload_ms,
        }),
    decreases events.len(),
{
    let s1 = s.spec_observe(events[0].0, events[0].1);
    assert(spec_qualifying(events[0].0, events[0].1));
    assert(s1 == (WatcherState { pending_reload: true, last_reload_ms: s.last_reload_ms }));
    if events.len() == 1 {
        assert(events.skip(1).len() == 0);
        assert(spec_observe_all(s1, events.skip(1)) == s1);
    } else {
        assert forall|i: int| 0 <= i < events.skip(1).len() implies spec_qualifying(
            #[trigger] events.skip(1)[i].0,
            events.skip(1)[i].1,
        ) by {
            assert(events.skip(1)[i] == events[i + 1]);
            assert(spec_qualifying(events[i + 1].0, events[i + 1].1));
        }
        lemma_observe_all_qualifying(s1, events.skip(1));
    }
}

proof fn lemma_observe_all_keeps_last(s: WatcherState, events: Seq<(FsEventKind, Seq<Seq<char>>)>)
    ensures
        spec_observe_all(s, events).last_reload_ms == s.last_reload_ms,
    decreases events.len(),
{
    if events.len() > 0 {
        lemma_observe_all_keeps_last(s.spec_observe(events[0].0, events[0].1), events.skip(1));
    }
}

/// Law: at most one reload per debounce window. Once a tick fires a
/// reload, no tick within the following debounce window fires again,
/// whatever events arrive in between: events only mark a reload pending,
/// they never move the reload timestamp.
pub proof fn lemma_at_most_one_reload_per_window(
    s: WatcherState,
    events: Seq<(FsEventKind, Seq<Seq<char>>)>,
    t1: u64,
    t2: u64,
)
    requires
        s.spec_should_reload(t1),
        t2 < t1 + DEBOUNCE_MS,
    ensures
        !spec_observe_all(s.spec_tick(t1), events).spec_should_reload(t2),
{
    lemma_observe_all_keeps_last(s.spec_tick(t1), events);
}

/// Law: a burst of qualifying events within one debounce window produces
/// exactly one reload. After the burst a reload is pending; the first tick
/// at or after the end of the window fires it; and no later tick fires
/// again before a further debounce window has passed, since no further
/// event arrives.
pub proof fn lemma_burst_single_reload(
    s0: WatcherState,
    events: Seq<(FsEventKind, Seq<Seq<char>>)>,
    t1: u64,
    t2: u64,
)
    requires
        events.len() > 0,
        forall|i: int| 0 <= i < events.len() ==> spec_qualifying(events[i].0, events[i].1),
        t1 >= s0.last_reload_ms + DEBOUNCE_MS,
        t2 < t1 + DEBOUNCE_MS,
    ensures
        ({
            let s1 = spec_observe_all(s0, events);
            &&& s1.spec_should_reload(t1)
            &&& s1.spec_tick(t1) == (WatcherState { pending_reload: false, last_reload_ms: t1 })
            &&& !s1.spec_tick(t1).spec_should_reload(t2)
        }),
{
    lemma_observe_all_qualifying(s0, events);
}

} // verus!
