//! Two-phase progress tracking.
//!
//! The conversion worker reports immutable snapshots of two pipeline
//! phases. The dual display turns the latest snapshot into two monotonic
//! indicators, one per phase, each latching permanently into `Done` when
//! its count reaches a positive total. A snapshot that would move a count
//! backwards is rejected as an internal contract failure, never clamped
//! silently, so the observed sequence is monotone by construction.

use vstd::prelude::*;
use vstd::string::StringExecFns;

verus! {

/// An immutable point-in-time measurement of the two pipeline phases.
/// `total` may be zero while the amount of work is still unknown.
#[derive(Clone, Copy, Debug, PartialEq, Eq, Structural)]
pub struct ProgressSnapshot {
    pub raster_done: u64,
    pub sequence_done: u64,
    pub total: u64,
}

/// The two pipeline phases tracked independently.
#[derive(Clone, Copy, Debug, PartialEq, Eq, Structural)]
pub enum Phase {
    Raster,
    Sequence,
}

/// The completed count a snapshot records for one phase.
pub open spec fn phase_count(s: ProgressSnapshot, ph: Phase) -> u64 {
    match ph {
        Phase::Raster => s.raster_done,
        Phase::Sequence => s.sequence_done,
    }
}

impl ProgressSnapshot {
    /// Neither phase count may exceed the total unit count.
    pub open spec fn wf(self) -> bool {
        self.raster_done <= self.total && self.sequence_done <= self.total
    }

    /// The zero measurement that precedes any report from the worker.
    pub open spec fn initial() -> ProgressSnapshot {
        ProgressSnapshot { raster_done: 0, sequence_done: 0, total: 0 }
    }

    /// `self` may follow `prev` within one run: phase counts never
    /// decrease, and a total, once positive, never changes.
    pub open spec fn follows(self, prev: ProgressSnapshot) -> bool {
        &&& self.raster_done >= prev.raster_done
        &&& self.sequence_done >= prev.sequence_done
        &&& prev.total > 0 ==> self.total == prev.total
    }

    /// Build a snapshot from the two phase counts and the total.
    pub fn new(raster_done: u64, sequence_done: u64, total: u64) -> (r: ProgressSnapshot)
        ensures
            r == (ProgressSnapshot { raster_done, sequence_done, total }),
    {
        ProgressSnapshot { raster_done, sequence_done, total }
    }
}

/// The state of one phase's indicator. `Done` is terminal.
#[derive(Clone, Copy, Debug, PartialEq, Eq, Structural)]
pub enum DisplayState {
    Waiting,
    Active,
    Done,
}

/// The state the display rule assigns to a validated measurement: `Done`
/// exactly at a positive total, `Active` on any other progress, `Waiting`
/// before the first unit of work.
pub open spec fn indicated(position: u64, total: u64) -> DisplayState {
    if position == total && total > 0 {
        DisplayState::Done
    } else if position > 0 {
        DisplayState::Active
    } else {
        DisplayState::Waiting
    }
}

/// One phase of the dual display: a capacity that follows the discovered
/// total, a position, and a state latched into `Done` on completion.
pub struct PhaseDisplay {
    pub label: String,
    pub position: u64,
    pub capacity: u64,
    pub state: DisplayState,
}

impl PhaseDisplay {
    /// The indicator never reports beyond its capacity, and its state
    /// agrees with its position: `Done` only at a positive capacity,
    /// `Active` only past zero, `Waiting` only at zero.
    pub open spec fn wf(self) -> bool {
        &&& self.position <= self.capacity
        &&& self.state == DisplayState::Done ==> self.position == self.capacity
            && self.capacity > 0
        &&& self.state == DisplayState::Active ==> self.position > 0
        &&& self.state == DisplayState::Waiting ==> self.position == 0
    }

    /// The transition rule of the display, in its stated order: progress
    /// shows the phase as active, an already latched phase stays done,
    /// anything else waits; then completion latches the state to done.
    pub open spec fn stepped(position: u64, total: u64, was: DisplayState) -> DisplayState {
        if position == total && total > 0 {
            DisplayState::Done
        } else if position > 0 {
            DisplayState::Active
        } else if was == DisplayState::Done {
            DisplayState::Done
        } else {
            DisplayState::Waiting
        }
    }

    /// A fresh indicator with a phase label, waiting at zero.
    pub fn new(label: String) -> (r: PhaseDisplay)
        ensures
            r.wf(),
            r.label == label,
            r.position == 0,
            r.capacity == 0,
            r.state == DisplayState::Waiting,
    {
        PhaseDisplay { label, position: 0, capacity: 0, state: DisplayState::Waiting }
    }

    /// Apply one validated measurement: adopt the total as the capacity,
    /// move the position, and step the state. A phase that was done stays
    /// done for every later measurement.
    pub fn update(&mut self, position: u64, total: u64)
        requires
            old(self).wf(),
            position <= total,
            position >= old(self).position,
            old(self).capacity > 0 ==> total == old(self).capacity,
        ensures
            final(self).wf(),
            final(self).label == old(self).label,
            final(self).capacity == total,
            final(self).position == position,
            final(self).state == PhaseDisplay::stepped(position, total, old(self).state),
            final(self).state == indicated(position, total),
            old(self).state == DisplayState::Done ==> final(self).state == DisplayState::Done,
    {
        self.capacity = total;
        if position > 0 {
            self.state = DisplayState::Active;
        } else if self.state == DisplayState::Done {
            // the latch: a finished phase never reverts
        } else {
            self.state = DisplayState::Waiting;
        }
        self.position = position;
        if position == total && total > 0 {
            self.state = DisplayState::Done;
        }
    }

    /// The text shown beside the indicator: the phase label while active,
    /// otherwise the state's own name.
    pub fn prefix(&self) -> (r: String)
        ensures
            self.state == DisplayState::Active ==> r@ == self.label@,
            self.state == DisplayState::Waiting ==> r@ == "Waiting"@,
            self.state == DisplayState::Done ==> r@ == "Done"@,
    {
        match self.state {
            DisplayState::Active => self.label.clone(),
            DisplayState::Waiting => String::from_str("Waiting"),
            DisplayState::Done => String::from_str("Done"),
        }
    }
}

/// The dual-stage display: one indicator per phase, the latest accepted
/// snapshot, and the whole observed run as ghost history.
pub struct DualProgress {
    pub raster: PhaseDisplay,
    pub sequence: PhaseDisplay,
    pub latest: ProgressSnapshot,
    pub history: Ghost<Seq<ProgressSnapshot>>,
}

/// The indicator a dual display keeps for one phase.
pub open spec fn phase_display(d: DualProgress, ph: Phase) -> PhaseDisplay {
    match ph {
        Phase::Raster => d.raster,
        Phase::Sequence => d.sequence,
    }
}

impl DualProgress {
    /// Every observed snapshot is well-formed and never steps backwards.
    pub open spec fn chain_ok(h: Seq<ProgressSnapshot>) -> bool {
        &&& forall|i: int| 0 <= i < h.len() ==> (#[trigger] h[i]).wf()
        &&& forall|i: int| 0 <= i < h.len() - 1 ==> (#[trigger] h[i + 1]).follows(h[i])
    }

    /// The display invariant: the history is a monotone chain, `latest`
    /// is its last element, and each indicator reflects `latest` exactly.
    pub open spec fn wf(self) -> bool {
        &&& Self::chain_ok(self.history@)
        &&& self.latest == if self.history@.len() == 0 {
            ProgressSnapshot::initial()
        } else {
            self.history@.last()
        }
        &&& self.latest.wf()
        &&& self.raster.wf()
        &&& self.sequence.wf()
        &&& self.raster.position == self.latest.raster_done
        &&& self.raster.capacity == self.latest.total
        &&& self.raster.state == indicated(self.latest.raster_done, self.latest.total)
        &&& self.sequence.position == self.latest.sequence_done
        &&& self.sequence.capacity == self.latest.total
        &&& self.sequence.state == indicated(self.latest.sequence_done, self.latest.total)
    }

    /// A fresh display with the two phase labels, nothing observed yet.
    pub fn new(raster_label: String, sequence_label: String) -> (r: DualProgress)
        ensures
            r.wf(),
            r.history@.len() == 0,
            r.raster.label == raster_label,
            r.sequence.label == sequence_label,
    {
        DualProgress {
            raster: PhaseDisplay::new(raster_label),
            sequence: PhaseDisplay::new(sequence_label),
            latest: ProgressSnapshot::new(0, 0, 0),
            history: Ghost(Seq::empty()),
        }
    }

    /// Both phases have latched into `Done`: the blocking wait of the
    /// foreground loop ends exactly here.
    pub open spec fn spec_complete(self) -> bool {
        self.raster.state == DisplayState::Done && self.sequence.state == DisplayState::Done
    }

    /// Whether both indicators are done.
    pub fn is_complete(&self) -> (r: bool)
        ensures
            r == self.spec_complete(),
    {
        match (self.raster.state, self.sequence.state) {
            (DisplayState::Done, DisplayState::Done) => true,
            _ => false,
        }
    }

    /// Accept one snapshot from the worker. A snapshot that breaks the
    /// progress contract — a count moving backwards, a count beyond the
    /// total, or a positive total changing — is rejected and leaves the
    /// display untouched; the caller treats that as an internal fault.
    pub fn accept(&mut self, snap: ProgressSnapshot) -> (ok: bool)
        requires
            old(self).wf(),
        ensures
            ok == (snap.wf() && snap.follows(old(self).latest)),
            final(self).wf(),
            ok ==> final(self).history@ == old(self).history@.push(snap),
            ok ==> final(self).latest == snap,
            !ok ==> *final(self) == *old(self),
            final(self).raster.label == old(self).raster.label,
            final(self).sequence.label == old(self).sequence.label,
    {
        let valid = snap.raster_done <= snap.total && snap.sequence_done <= snap.total
            && snap.raster_done >= self.latest.raster_done && snap.sequence_done
            >= self.latest.sequence_done && (self.latest.total == 0 || snap.total
            == self.latest.total);
        if !valid {
            return false;
        }
        self.raster.update(snap.raster_done, snap.total);
        self.sequence.update(snap.sequence_done, snap.total);
        self.latest = snap;
        proof {
            let h = self.history@.push(snap);
            assert forall|i: int| 0 <= i < h.len() implies (#[trigger] h[i]).wf() by {
                if i < h.len() - 1 {
                    assert(h[i] == old(self).history@[i]);
                }
            }
            assert forall|i: int| 0 <= i < h.len() - 1 implies (#[trigger] h[i + 1]).follows(
                h[i],
            ) by {
                if i < h.len() - 2 {
                    assert(h[i] == old(self).history@[i]);
                    assert(h[i + 1] == old(self).history@[i + 1]);
                } else {
                    assert(h[i] == old(self).latest);
                    assert(h[i + 1] == snap);
                }
            }
        }
        self.history = Ghost(self.history@.push(snap));
        true
    }
}

/// Progress monotonicity: across any run, each phase's observed count
/// never decreases, and once the total is positive it never changes and
/// bounds both counts.
pub proof fn lemma_observed_monotone(d: DualProgress, ph: Phase, i: int, j: int)
    requires
        d.wf(),
        0 <= i <= j < d.history@.len(),
    ensures
        phase_count(d.history@[i], ph) <= phase_count(d.history@[j], ph),
        d.history@[i].total > 0 ==> d.history@[j].total == d.history@[i].total,
        d.history@[j].wf(),
    decreases j - i,
{
    if i < j {
        lemma_observed_monotone(d, ph, i, j - 1);
        assert(d.history@[(j - 1) + 1].follows(d.history@[j - 1]));
    }
}

/// The completion latch: from the moment a phase's count reaches a
/// positive total, that phase's indicator is `Done`, and every later
/// snapshot of the run leaves it `Done`.
pub proof fn lemma_completion_latch(d: DualProgress, ph: Phase, i: int)
    requires
        d.wf(),
        0 <= i < d.history@.len(),
        phase_count(d.history@[i], ph) == d.history@[i].total,
        d.history@[i].total > 0,
    ensures
        phase_display(d, ph).state == DisplayState::Done,
{
    let h = d.history@;
    let last = h.len() - 1;
    lemma_observed_monotone(d, ph, i, last);
    assert(d.latest == h[last]);
    assert(phase_count(h[last], ph) >= h[i].total);
    assert(phase_count(h[last], ph) <= h[last].total);
}

} // verus!
