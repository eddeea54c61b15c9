//! Watermark trackers: one per pipeline branch, each following the windows
//! that its branch has completed.

use crate::config::Branch;
use std::time::Duration;
use timely::dataflow::operators::probe::Handle;
use vstd::prelude::*;

verus! {

/// A timely probe handle on one branch of the dataflow. The handle's type is
/// bounded by timely's `Timestamp` trait, so it is held opaquely: nothing is
/// known of what it reports.
#[verifier::external_body]
pub struct CompletionProbe {
    pub handle: Handle<Duration>,
}

/// Asks timely's `probe::Handle::less_equal` whether the branch still holds
/// work at or before the time `nanos`. The answer depends on how far the
/// dataflow has run, so nothing is claimed of it.
#[verifier::external_body]
fn probe_less_equal(probe: &CompletionProbe, nanos: u64) -> (outstanding: bool) {
    probe.handle.less_equal(&Duration::from_nanos(nanos))
}

/// Reads the `time` crate's `precise_time_ns`, a performance counter in
/// nanoseconds since an unspecified instant. Nothing is claimed of the value.
#[verifier::external_body]
fn wall_clock_ns() -> (now: u64) {
    time::precise_time_ns()
}

/// One completed window of a branch, with the instant at which the tracker
/// saw it complete.
#[derive(Clone, Copy, Debug, PartialEq, Eq)]
pub struct EpochMark {
    pub epoch: u64,
    pub wall_clock_ns: u64,
}

/// Follows one branch of the pipeline through a completion probe.
pub struct ProbeWrapper {
    probe: CompletionProbe,
    name: String,
    current: u64,
}

impl ProbeWrapper {
    /// The first window that the tracker has not yet seen complete.
    pub closed spec fn current_spec(&self) -> u64 {
        self.current
    }

    /// The branch's name.
    pub closed spec fn name_spec(&self) -> Seq<char> {
        self.name@
    }

    /// The probe that the tracker asks.
    pub closed spec fn probe_spec(&self) -> CompletionProbe {
        self.probe
    }

    /// A tracker for the branch `name`, starting at window zero.
    pub fn new(name: String, probe: CompletionProbe) -> (tracker: Self)
        ensures
            tracker.current_spec() == 0,
            tracker.name_spec() == name@,
            tracker.probe_spec() == probe,
    {
        ProbeWrapper { probe, name, current: 0 }
    }

    /// Moves the tracker's pointer forward to `new_current`. The pointer
    /// never moves back: a window before the pointer leaves it where it is.
    pub fn set_current(&mut self, new_current: u64)
        ensures
            final(self).current_spec() == set_forward(old(self).current_spec(), new_current),
            final(self).current_spec() >= old(self).current_spec(),
            final(self).name_spec() == old(self).name_spec(),
            final(self).probe_spec() == old(self).probe_spec(),
    {
        if new_current >= self.current {
            self.current = new_current;
        }
    }

    /// The first window that the tracker has not yet seen complete.
    pub fn current(&self) -> (current: u64)
        ensures
            current == self.current_spec(),
    {
        self.current
    }

    /// The branch's name.
    pub fn name(&self) -> (name: &str)
        ensures
            name@ == self.name_spec(),
    {
        self.name.as_str()
    }

    /// Takes the probe's answer for the current window. Where the branch
    /// holds no work at or before that window, the window is complete: it is
    /// handed out and the pointer moves on by one. Otherwise, and at the last
    /// representable window, nothing changes.
    pub fn advance_if_complete(&mut self, outstanding: bool) -> (completed: Option<u64>)
        ensures
            final(self).current_spec() == next_current(old(self).current_spec(), outstanding),
            final(self).name_spec() == old(self).name_spec(),
            final(self).probe_spec() == old(self).probe_spec(),
            completed == if final(self).current_spec() != old(self).current_spec() {
                Some(old(self).current_spec())
            } else {
                None
            },
    {
        if !outstanding && self.current < u64::MAX {
            let completed = self.current;
            self.current = completed + 1;
            Some(completed)
        } else {
            None
        }
    }

    /// Drains the branch's completed windows: as long as the probe reports
    /// no work at or before the current window, the window is marked with the time of
    /// the observation and the pointer moves on. The marks are the windows
    /// from the old pointer up to the new one, in order.
    pub fn print_and_advance(&mut self) -> (marks: Vec<EpochMark>)
        ensures
            final(self).current_spec() >= old(self).current_spec(),
            final(self).name_spec() == old(self).name_spec(),
            final(self).probe_spec() == old(self).probe_spec(),
            marks@.len() == final(self).current_spec() - old(self).current_spec(),
            forall|i: int|
                0 <= i < marks@.len() ==> (#[trigger] marks@[i]).epoch == old(self).current_spec()
                    + i,
    {
        let mut marks: Vec<EpochMark> = Vec::new();
        let ghost start = self.current;
        while self.current < u64::MAX
            invariant
                start == old(self).current,
                self.current >= start,
                self.name@ == old(self).name@,
                self.probe == old(self).probe,
                marks@.len() == self.current - start,
                forall|i: int| 0 <= i < marks@.len() ==> (#[trigger] marks@[i]).epoch == start + i,
            decreases u64::MAX - self.current,
        {
            let outstanding = probe_less_equal(&self.probe, self.current);
            match self.advance_if_complete(outstanding) {
                Some(epoch) => {
                    let now = wall_clock_ns();
                    marks.push(EpochMark { epoch, wall_clock_ns: now });
                },
                None => {
                    return marks;
                },
            }
        }
        marks
    }
}

/// Pairs probes with the branches that they follow, in order: one tracker
/// for each pair, named after its branch and starting at window zero. What
/// is left over of the longer list is dropped.
pub fn track_branches(probes: Vec<CompletionProbe>, branches: &Vec<Branch>) -> (trackers: Vec<
    ProbeWrapper,
>)
    ensures
        trackers@.len() == if probes@.len() <= branches@.len() {
            probes@.len()
        } else {
            branches@.len()
        },
        forall|i: int|
            0 <= i < trackers@.len() ==> {
                &&& (#[trigger] trackers@[i]).name_spec() == branches@[i].name_spec()
                &&& trackers@[i].probe_spec() == probes@[i]
                &&& trackers@[i].current_spec() == 0
            },
{
    let mut probes = probes;
    let ghost all = probes@;
    let mut trackers: Vec<ProbeWrapper> = Vec::new();
    let mut i: usize = 0;
    while probes.len() > 0 && i < branches.len()
        invariant
            0 <= i <= branches@.len(),
            i + probes@.len() == all.len(),
            probes@ == all.skip(i as int),
            trackers@.len() == i,
            forall|j: int|
                0 <= j < i ==> {
                    &&& (#[trigger] trackers@[j]).name_spec() == branches@[j].name_spec()
                    &&& trackers@[j].probe_spec() == all[j]
                    &&& trackers@[j].current_spec() == 0
                },
        decreases probes@.len(),
    {
        let probe = probes.remove(0);
        assert(probes@ =~= all.skip(i + 1));
        let name = branches[i].name().to_owned();
        trackers.push(ProbeWrapper::new(name, probe));
        i += 1;
    }
    trackers
}

/// The pointer after one observation of the probe.
pub open spec fn next_current(current: u64, outstanding: bool) -> u64 {
    if !outstanding && current < u64::MAX {
        (current + 1) as u64
    } else {
        current
    }
}

/// The pointer after it was set to `window`: the later of the two.
pub open spec fn set_forward(current: u64, window: u64) -> u64 {
    if window >= current {
        window
    } else {
        current
    }
}

/// A call on a tracker, as far as it bears on the pointer.
pub enum TrackerCall {
    /// One observation of the probe, with its answer.
    Observe(bool),
    /// The pointer is set to a window.
    Reset(u64),
}

/// The pointer after one call.
pub open spec fn current_after_call(current: u64, call: TrackerCall) -> u64 {
    match call {
        TrackerCall::Observe(outstanding) => next_current(current, outstanding),
        TrackerCall::Reset(window) => set_forward(current, window),
    }
}

/// The pointer after a sequence of calls.
pub open spec fn current_after(current: u64, calls: Seq<TrackerCall>) -> u64
    decreases calls.len(),
{
    if calls.len() == 0 {
        current
    } else {
        current_after_call(current_after(current, calls.drop_last()), calls.last())
    }
}

/// Whatever the probe answers, and in whatever order a tracker is observed
/// and set, its pointer never moves back.
pub proof fn current_never_decreases(current: u64, calls: Seq<TrackerCall>)
    ensures
        current_after(current, calls) >= current,
    decreases calls.len(),
{
    if calls.len() > 0 {
        current_never_decreases(current, calls.drop_last());
    }
}

} // verus!
