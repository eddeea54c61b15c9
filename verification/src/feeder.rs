//! The feeder's decisions: which window a record falls into, when the input
//! frontier advances, and how far the trackers may lag behind it.

use crate::epoch::{epoch_of, epoch_spec};
use vstd::prelude::*;

verus! {

/// The number of records that were fed into one window.
#[derive(Clone, Copy, Debug, PartialEq, Eq, Structural)]
pub struct WindowCount {
    pub window: u64,
    pub records: u64,
}

/// What the caller has to do for one record, before it injects the record.
#[derive(Clone, Copy, Debug, PartialEq, Eq)]
pub struct FeedStep {
    /// The window that the record belongs to.
    pub window: u64,
    /// This is the first record: every tracker's pointer is set to `window`.
    pub first: bool,
    /// The frontier moved up to `window`: the caller announces the window and
    /// runs the computation until the trackers have caught up.
    pub advance: bool,
    /// The records counted for the window that was left, where one was left.
    pub closed: Option<WindowCount>,
}

/// The feeder's state, as the contracts speak of it.
pub struct FeederState {
    /// Whether a record has been offered.
    pub started: bool,
    /// The newest window that has been declared open, or -1 where none has.
    pub frontier: int,
    /// The window whose records are being counted.
    pub counting: u64,
    /// The records counted so far for that window.
    pub pending: nat,
}

/// The state before the first record.
pub open spec fn initial_state() -> FeederState {
    FeederState { started: false, frontier: -1, counting: 0, pending: 0 }
}

/// The frontier from which a record of `window` is judged: the current one,
/// or the window before `window` at the first record.
pub open spec fn base_frontier(state: FeederState, window: u64) -> int {
    if state.started {
        state.frontier
    } else {
        window - 1
    }
}

/// The window that counts when a record of `window` arrives: the current
/// one, or `window` itself at the first record.
pub open spec fn base_counting(state: FeederState, window: u64) -> u64 {
    if state.started {
        state.counting
    } else {
        window
    }
}

/// Whether a record of `window` moves the frontier: its window strictly
/// exceeds the frontier.
pub open spec fn advances(state: FeederState, window: u64) -> bool {
    window > base_frontier(state, window)
}

/// Whether a record of `window` ends the count of the window before it.
pub open spec fn closes(state: FeederState, window: u64) -> bool {
    window > base_counting(state, window)
}

/// The state after a record of `window` was offered.
pub open spec fn offered(state: FeederState, window: u64) -> FeederState {
    FeederState {
        started: true,
        frontier: if advances(state, window) {
            window as int
        } else {
            state.frontier
        },
        counting: if closes(state, window) {
            window
        } else {
            base_counting(state, window)
        },
        pending: if closes(state, window) {
            1
        } else {
            state.pending + 1
        },
    }
}

/// What the caller is told for a record of `window`.
pub open spec fn step_for(state: FeederState, window: u64) -> FeedStep {
    FeedStep {
        window,
        first: !state.started,
        advance: advances(state, window),
        closed: if closes(state, window) {
            Some(WindowCount { window: state.counting, records: state.pending as u64 })
        } else {
            None
        },
    }
}

/// The feeder between two records.
pub struct Feeder {
    window_size: u32,
    lag: u64,
    started: bool,
    frontier: Option<u64>,
    counting: u64,
    pending: u64,
}

impl Feeder {
    /// The width of a window.
    pub closed spec fn window_size_spec(&self) -> u32 {
        self.window_size
    }

    /// How many windows the slowest tracker may trail the frontier.
    pub closed spec fn lag_spec(&self) -> u64 {
        self.lag
    }

    /// The feeder's state.
    pub closed spec fn state(&self) -> FeederState {
        FeederState {
            started: self.started,
            frontier: match self.frontier {
                Some(window) => window as int,
                None => -1,
            },
            counting: self.counting,
            pending: self.pending as nat,
        }
    }

    /// The invariant: windows have a width, and nothing is counted or
    /// declared before the first record.
    pub closed spec fn wf(&self) -> bool {
        &&& self.window_size > 0
        &&& !self.started ==> self.frontier is None && self.pending == 0 && self.counting == 0
    }

    /// A feeder that has seen no record.
    pub fn new(window_size: u32, lag: u64) -> (feeder: Feeder)
        requires
            window_size > 0,
        ensures
            feeder.wf(),
            feeder.window_size_spec() == window_size,
            feeder.lag_spec() == lag,
            feeder.state() == initial_state(),
    {
        Feeder { window_size, lag, started: false, frontier: None, counting: 0, pending: 0 }
    }

    /// Takes one record's timestamp and says what has to happen before the
    /// record is injected. The frontier moves only upwards, and only to the
    /// record's window; a window's count is handed out when a record of a
    /// later window arrives.
    pub fn offer(&mut self, timestamp: u64) -> (step: FeedStep)
        requires
            old(self).wf(),
            old(self).state().pending < u64::MAX,
        ensures
            final(self).wf(),
            final(self).window_size_spec() == old(self).window_size_spec(),
            final(self).lag_spec() == old(self).lag_spec(),
            step.window as int == epoch_spec(timestamp, old(self).window_size_spec()),
            step == step_for(old(self).state(), step.window),
            final(self).state() == offered(old(self).state(), step.window),
            final(self).state().frontier >= old(self).state().frontier,
    {
        let window = epoch_of(timestamp, self.window_size);
        let first = !self.started;
        if first {
            self.started = true;
            self.counting = window;
            self.frontier = if window > 0 {
                Some(window - 1)
            } else {
                None
            };
        }
        let advance = match self.frontier {
            Some(frontier) => window > frontier,
            None => true,
        };
        if advance {
            self.frontier = Some(window);
        }
        let mut closed: Option<WindowCount> = None;
        if window > self.counting {
            closed = Some(WindowCount { window: self.counting, records: self.pending });
            self.pending = 0;
            self.counting = window;
        }
        self.pending = self.pending + 1;
        FeedStep { window, first, advance, closed }
    }

    /// The newest window that has been declared open, if any.
    pub fn frontier(&self) -> (frontier: Option<u64>)
        ensures
            match frontier {
                Some(window) => self.state().frontier == window as int,
                None => self.state().frontier == -1,
            },
    {
        self.frontier
    }

    /// The records counted so far for the window that is being filled.
    pub fn pending(&self) -> (pending: u64)
        ensures
            pending as nat == self.state().pending,
    {
        self.pending
    }

    /// The count of the window that was being filled when the input ended.
    pub fn finish(&self) -> (last: WindowCount)
        ensures
            last.window == self.state().counting,
            last.records as nat == self.state().pending,
    {
        WindowCount { window: self.counting, records: self.pending }
    }

    /// The window that every tracker has to have reached before more input
    /// is injected: the frontier less the tolerated lag, and no less than
    /// the first window.
    pub fn lag_bound(&self) -> (bound: u64)
        ensures
            bound as int == if self.state().frontier - self.lag_spec() > 0 {
                self.state().frontier - self.lag_spec()
            } else {
                0
            },
    {
        match self.frontier {
            Some(frontier) => if frontier > self.lag {
                frontier - self.lag
            } else {
                0
            },
            None => 0,
        }
    }

    /// The window that every tracker has to have reached once the input is
    /// exhausted: the one after the frontier.
    pub fn final_bound(&self) -> (bound: u64)
        requires
            self.state().frontier < u64::MAX,
        ensures
            bound as int == self.state().frontier + 1,
    {
        match self.frontier {
            Some(frontier) => frontier + 1,
            None => 0,
        }
    }

    /// Whether every tracker, given by its pointer, has passed the frontier:
    /// the test that ends the drain once the input is exhausted.
    pub fn drained(&self, pointers: &Vec<u64>) -> (yes: bool)
        ensures
            yes == forall|i: int|
                0 <= i < pointers@.len() ==> #[trigger] pointers@[i] as int
                    > self.state().frontier,
    {
        let mut i: usize = 0;
        while i < pointers.len()
            invariant
                0 <= i <= pointers@.len(),
                forall|j: int|
                    0 <= j < i ==> #[trigger] pointers@[j] as int > self.state().frontier,
            decreases pointers@.len() - i,
        {
            let behind = match self.frontier {
                Some(frontier) => pointers[i] <= frontier,
                None => false,
            };
            if behind {
                return false;
            }
            i += 1;
        }
        true
    }

    /// Whether the slowest of the trackers, given by their pointers, is
    /// within the tolerated lag of the frontier.
    pub fn caught_up(&self, pointers: &Vec<u64>) -> (yes: bool)
        ensures
            yes == forall|i: int|
                0 <= i < pointers@.len() ==> #[trigger] pointers@[i] as int + self.lag_spec()
                    >= self.state().frontier,
    {
        let bound = self.lag_bound();
        let mut i: usize = 0;
        while i < pointers.len()
            invariant
                0 <= i <= pointers@.len(),
                bound as int == if self.state().frontier - self.lag_spec() > 0 {
                    self.state().frontier - self.lag_spec()
                } else {
                    0
                },
                forall|j: int|
                    0 <= j < i ==> #[trigger] pointers@[j] as int + self.lag_spec()
                        >= self.state().frontier,
            decreases pointers@.len() - i,
        {
            if pointers[i] < bound {
                return false;
            }
            i += 1;
        }
        true
    }
}

/// The state of a feeder that has been offered records of these windows,
/// in this order.
pub open spec fn state_after(windows: Seq<u64>) -> FeederState
    decreases windows.len(),
{
    if windows.len() == 0 {
        initial_state()
    } else {
        offered(state_after(windows.drop_last()), windows.last())
    }
}

/// How many of `windows` are the window `window`.
pub open spec fn count_of(windows: Seq<u64>, window: u64) -> nat
    decreases windows.len(),
{
    if windows.len() == 0 {
        0
    } else {
        count_of(windows.drop_last(), window) + if windows.last() == window {
            1nat
        } else {
            0nat
        }
    }
}

/// Whether the windows never go back, as those of sorted records do.
pub open spec fn non_decreasing(windows: Seq<u64>) -> bool {
    forall|i: int, j: int| 0 <= i <= j < windows.len() ==> windows[i] <= windows[j]
}

/// Whatever the order of the records, the frontier never moves back, and
/// once records were offered it is the newest of their windows.
pub proof fn frontier_is_newest_window(windows: Seq<u64>)
    requires
        windows.len() > 0,
    ensures
        state_after(windows.drop_last()).frontier <= state_after(windows).frontier,
        forall|i: int| 0 <= i < windows.len() ==> windows[i] <= state_after(windows).frontier,
        exists|i: int| 0 <= i < windows.len() && windows[i] == state_after(windows).frontier,
    decreases windows.len(),
{
    let front = windows.drop_last();
    let last = windows.len() - 1;
    if front.len() > 0 {
        frontier_is_newest_window(front);
        let i = choose|i: int| 0 <= i < front.len() && front[i] == state_after(front).frontier;
        assert(windows[i] == front[i]);
        assert forall|k: int| 0 <= k < windows.len() implies windows[k] <= state_after(
            windows,
        ).frontier by {
            if k < last {
                assert(windows[k] == front[k]);
            }
        }
        if advances(state_after(front), windows.last()) {
            assert(windows[last] == state_after(windows).frontier);
        } else {
            assert(windows[i] == state_after(windows).frontier);
        }
    } else {
        assert(state_after(front) == initial_state());
        assert(windows[last] == state_after(windows).frontier);
    }
}

proof fn later_window_not_counted(windows: Seq<u64>, window: u64)
    requires
        forall|i: int| 0 <= i < windows.len() ==> windows[i] < window,
    ensures
        count_of(windows, window) == 0,
    decreases windows.len(),
{
    if windows.len() > 0 {
        let front = windows.drop_last();
        assert forall|i: int| 0 <= i < front.len() implies front[i] < window by {
            assert(front[i] == windows[i]);
        }
        later_window_not_counted(front, window);
        assert(windows[windows.len() - 1] < window);
    }
}

/// For records in order, the feeder counts the window of the newest record,
/// and its count is the number of records of that window: what it hands
/// out when the window is left is exact.
pub proof fn counts_are_exact(windows: Seq<u64>)
    requires
        windows.len() > 0,
        non_decreasing(windows),
    ensures
        state_after(windows).started,
        state_after(windows).counting == windows.last(),
        state_after(windows).pending == count_of(windows, windows.last()),
    decreases windows.len(),
{
    let front = windows.drop_last();
    let newest = windows.last();
    let last = windows.len() - 1;
    if front.len() > 0 {
        assert forall|i: int, j: int| 0 <= i <= j < front.len() implies front[i] <= front[j] by {
            assert(front[i] == windows[i]);
            assert(front[j] == windows[j]);
        }
        counts_are_exact(front);
        assert(front.last() == windows[last - 1]);
        assert(windows[last - 1] <= windows[last]);
        if newest > front.last() {
            assert forall|i: int| 0 <= i < front.len() implies front[i] < newest by {
                assert(front[i] == windows[i]);
                assert(windows[i] <= windows[last - 1]);
            }
            later_window_not_counted(front, newest);
        }
    } else {
        assert(state_after(front) == initial_state());
        assert(count_of(front, newest) == 0);
    }
}

/// For records in order, a window whose count was handed out gets no
/// further record: every later record belongs to a later window.
pub proof fn closed_window_gets_no_record(windows: Seq<u64>, at: int, later: int)
    requires
        non_decreasing(windows),
        0 < at <= later < windows.len() <= u64::MAX,
        closes(state_after(windows.take(at)), windows[at]),
    ensures
        step_for(state_after(windows.take(at)), windows[at]).closed is Some,
        step_for(state_after(windows.take(at)), windows[at]).closed->Some_0.window
            < windows[later],
        step_for(state_after(windows.take(at)), windows[at]).closed->Some_0.records as nat
            == count_of(windows.take(at), windows[at - 1]),
{
    let front = windows.take(at);
    assert forall|i: int, j: int| 0 <= i <= j < front.len() implies front[i] <= front[j] by {
        assert(front[i] == windows[i]);
        assert(front[j] == windows[j]);
    }
    counts_are_exact(front);
    assert(front.last() == windows[at - 1]);
    assert(windows[at] <= windows[later]);
    count_bounded(front, windows[at - 1]);
}

proof fn count_bounded(windows: Seq<u64>, window: u64)
    ensures
        count_of(windows, window) <= windows.len(),
    decreases windows.len(),
{
    if windows.len() > 0 {
        count_bounded(windows.drop_last(), window);
    }
}

} // verus!
