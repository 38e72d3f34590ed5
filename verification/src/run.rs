//! Dispatching the configuration operations over an opened device.
//!
//! The tool takes two independent boolean flags.  Each set flag contributes
//! the fixed two-transfer sequence of its operation to the plan, toggle
//! before clear.  The plan is then carried out best-effort: every planned
//! transfer is attempted in order, and a failed transfer never prevents the
//! ones after it — its failure is only recorded, to be reported to the
//! user.  No transfer at all is attempted when no device could be opened.

use vstd::prelude::*;

use crate::device::DeviceRecord;
use crate::device::spec_select;
use crate::device::select_device;
use crate::transfer::ControlTransfer;
use crate::transfer::ControlTransferView;
use crate::transfer::Operation;
use crate::transfer::operation_sequence;
use crate::transfer::spec_operation_sequence;
use crate::transfer::views_of;

verus! {

/// The transfers a run with the given flags must attempt, in send order:
/// the toggle-mode sequence when `toggle_mode` is set, followed by the
/// clear-pairings sequence when `clear_pairings` is set.
pub open spec fn spec_plan(toggle_mode: bool, clear_pairings: bool) -> Seq<ControlTransferView> {
    (if toggle_mode {
        spec_operation_sequence(Operation::ToggleMode)
    } else {
        Seq::<ControlTransferView>::empty()
    }) + (if clear_pairings {
        spec_operation_sequence(Operation::ClearPairings)
    } else {
        Seq::<ControlTransferView>::empty()
    })
}

/// Flag independence: each flag contributes its full sequence on its own,
/// with toggle-mode ahead of clear-pairings when both are set — four
/// transfers for both flags, two for one, none for neither.
pub proof fn lemma_flag_independence(toggle_mode: bool, clear_pairings: bool)
    ensures
        spec_plan(true, true) =~= spec_operation_sequence(Operation::ToggleMode)
            + spec_operation_sequence(Operation::ClearPairings),
        spec_plan(true, false) =~= spec_operation_sequence(Operation::ToggleMode),
        spec_plan(false, true) =~= spec_operation_sequence(Operation::ClearPairings),
        spec_plan(false, false) =~= Seq::<ControlTransferView>::empty(),
        spec_plan(toggle_mode, clear_pairings).len() == (if toggle_mode {
            2int
        } else {
            0int
        }) + (if clear_pairings {
            2int
        } else {
            0int
        }),
        toggle_mode ==> spec_plan(toggle_mode, clear_pairings).take(2)
            =~= spec_operation_sequence(Operation::ToggleMode),
{
}

/// Builds the plan for the given flags.
pub fn plan_transfers(toggle_mode: bool, clear_pairings: bool) -> (r: Vec<ControlTransfer>)
    ensures
        views_of(r@) == spec_plan(toggle_mode, clear_pairings),
{
    let mut r: Vec<ControlTransfer> = Vec::new();
    if toggle_mode {
        let mut s = operation_sequence(Operation::ToggleMode);
        r.append(&mut s);
    }
    if clear_pairings {
        let mut s = operation_sequence(Operation::ClearPairings);
        r.append(&mut s);
    }
    proof {
        assert(views_of(r@) =~= spec_plan(toggle_mode, clear_pairings));
    }
    r
}

/// Mathematical image of a [`Session`]: the planned transfers, and the
/// outcome recorded for each transfer attempted so far.
pub struct SessionView {
    pub plan: Seq<ControlTransferView>,
    pub outcomes: Seq<bool>,
}

/// The session state after one more attempted transfer whose outcome was
/// `ok`: the plan is untouched, the outcome is appended.
pub open spec fn spec_record(s: SessionView, ok: bool) -> SessionView {
    SessionView { plan: s.plan, outcomes: s.outcomes.push(ok) }
}

/// The next transfer a session must attempt, if any: the planned transfer
/// after the ones already attempted.
pub open spec fn spec_pending(s: SessionView) -> Option<ControlTransferView> {
    if s.outcomes.len() < s.plan.len() {
        Some(s.plan[s.outcomes.len() as int])
    } else {
        None
    }
}

/// Independence of failure: recording a failed transfer leaves the session
/// exactly where recording a successful one would — same remaining plan,
/// same next transfer to attempt.  A failure is only remembered, never
/// acted on.
pub proof fn lemma_outcome_independence(s: SessionView)
    ensures
        spec_record(s, false).plan == spec_record(s, true).plan,
        spec_record(s, false).outcomes.len() == spec_record(s, true).outcomes.len(),
        spec_pending(spec_record(s, false)) == spec_pending(spec_record(s, true)),
{
}

/// One run of the dispatcher over an opened device: the transfers still to
/// attempt, and the outcome of each transfer attempted so far.
pub struct Session {
    plan: Vec<ControlTransfer>,
    outcomes: Vec<bool>,
}

impl View for Session {
    type V = SessionView;

    closed spec fn view(&self) -> SessionView {
        SessionView { plan: views_of(self.plan@), outcomes: self.outcomes@ }
    }
}

impl Session {
    /// No more outcomes recorded than transfers planned.
    pub open spec fn wf(&self) -> bool {
        self@.outcomes.len() <= self@.plan.len()
    }

    /// Opens a session for the given flags: the full plan ahead, nothing
    /// attempted yet.
    pub fn new(toggle_mode: bool, clear_pairings: bool) -> (s: Session)
        ensures
            s.wf(),
            s@.plan == spec_plan(toggle_mode, clear_pairings),
            s@.outcomes == Seq::<bool>::empty(),
    {
        Session { plan: plan_transfers(toggle_mode, clear_pairings), outcomes: Vec::new() }
    }

    /// The next transfer to attempt, or `None` when the plan is done.
    pub fn pending(&self) -> (r: Option<&ControlTransfer>)
        requires
            self.wf(),
        ensures
            match r {
                Some(t) => spec_pending(self@) == Some(t@),
                None => spec_pending(self@) is None,
            },
    {
        let sent = self.outcomes.len();
        if sent < self.plan.len() {
            Some(&self.plan[sent])
        } else {
            None
        }
    }

    /// Records the outcome of the pending transfer, moving the session one
    /// transfer forward whether the transfer succeeded or failed.
    pub fn record_outcome(&mut self, ok: bool)
        requires
            old(self).wf(),
            spec_pending(old(self)@) is Some,
        ensures
            final(self).wf(),
            final(self)@ == spec_record(old(self)@, ok),
    {
        self.outcomes.push(ok);
    }

    /// Whether every planned transfer has been attempted.
    pub fn finished(&self) -> (r: bool)
        requires
            self.wf(),
        ensures
            r == (spec_pending(self@) is None),
    {
        self.outcomes.len() == self.plan.len()
    }

    /// How many transfers have been attempted so far.
    pub fn attempted(&self) -> (r: usize)
        ensures
            r == self@.outcomes.len(),
    {
        self.outcomes.len()
    }

    /// The outcomes recorded so far, in attempt order: `false` marks a
    /// transfer that failed.
    pub fn outcomes(&self) -> (r: &Vec<bool>)
        ensures
            r@ == self@.outcomes,
    {
        &self.outcomes
    }
}

/// What one simulated run of the whole tool did: the selected device, the
/// transfers issued to it in order, and each transfer's outcome.
pub struct RunReport {
    pub device_index: Option<usize>,
    pub issued: Vec<ControlTransfer>,
    pub outcomes: Vec<bool>,
}

/// One run of the whole tool over a simulated device list: locate the
/// device, and if one opens, attempt the full plan for the flags, taking
/// the outcome of the `i`-th issued transfer from `replies[i]`.  When no
/// device matches and opens, no transfer at all is issued.
pub fn simulate_run(
    devices: &Vec<DeviceRecord>,
    vid: u16,
    pid: u16,
    toggle_mode: bool,
    clear_pairings: bool,
    replies: &Vec<bool>,
) -> (r: RunReport)
    requires
        replies@.len() >= spec_plan(toggle_mode, clear_pairings).len(),
    ensures
        match r.device_index {
            Some(i) => spec_select(devices@, vid, pid) == Some(i as int),
            None => spec_select(devices@, vid, pid) is None,
        },
        r.device_index is None ==> r.issued@.len() == 0 && r.outcomes@.len() == 0,
        r.device_index is Some ==> views_of(r.issued@) == spec_plan(toggle_mode, clear_pairings)
            && r.outcomes@ == replies@.take(spec_plan(toggle_mode, clear_pairings).len() as int),
{
    let device_index = select_device(devices, vid, pid);
    if device_index.is_none() {
        return RunReport { device_index: None, issued: Vec::new(), outcomes: Vec::new() };
    }
    let mut session = Session::new(toggle_mode, clear_pairings);
    let mut issued: Vec<ControlTransfer> = Vec::new();
    let mut outcomes: Vec<bool> = Vec::new();
    loop
        invariant
            session.wf(),
            session@.plan == spec_plan(toggle_mode, clear_pairings),
            replies@.len() >= session@.plan.len(),
            session@.outcomes.len() == issued@.len(),
            outcomes@ == session@.outcomes,
            views_of(issued@) == session@.plan.take(issued@.len() as int),
            session@.outcomes == replies@.take(issued@.len() as int),
        ensures
            session@.outcomes.len() == session@.plan.len(),
        decreases session@.plan.len() - session@.outcomes.len(),
    {
        let sent = session.attempted();
        let next = match session.pending() {
            Some(t) => Some(t.duplicate()),
            None => None,
        };
        match next {
            Some(t) => {
                issued.push(t);
                let ok = replies[sent];
                session.record_outcome(ok);
                outcomes.push(ok);
                proof {
                    assert(views_of(issued@) =~= session@.plan.take(issued@.len() as int));
                    assert(session@.outcomes =~= replies@.take(issued@.len() as int));
                }
            },
            None => {
                break;
            },
        }
    }
    proof {
        assert(views_of(issued@) =~= spec_plan(toggle_mode, clear_pairings));
    }
    RunReport { device_index, issued, outcomes }
}

} // verus!

