//! Bookkeeping of one fan-out/fan-in dispatch.
//!
//! The library decides what happens next; a driver that owns the runtime does
//! it and reports back. A dispatch launches all of its units, then joins them
//! in launch order, and only when every unit has been joined does it finish,
//! with the first failure that the joins revealed, if there was one.

use vstd::prelude::*;

verus! {

/// How a joined unit ended.
#[derive(Clone, Copy, Debug, PartialEq, Eq, Structural)]
pub enum UnitOutcome {
    /// The unit ran to completion.
    Completed,
    /// The unit terminated abnormally.
    Failed,
}

/// A dispatched unit terminated abnormally. `unit` is its position in launch
/// order, counted from zero.
#[derive(Clone, Copy, Debug, PartialEq, Eq, Structural)]
pub struct TaskFailure {
    pub unit: usize,
}

/// What the driver has to do next.
#[derive(Clone, Copy, Debug, PartialEq, Eq)]
pub enum Action {
    /// Launch one more unit; it will be unit number `unit`.
    Launch { unit: usize },
    /// Wait for unit number `unit` to end.
    Join { unit: usize },
    /// Every unit has been joined: return `result` to the caller.
    Finish { result: Result<(), TaskFailure> },
}

/// What the driver reports after it has done what was asked.
#[derive(Clone, Copy, Debug, PartialEq, Eq, Structural)]
pub enum Report {
    /// The unit asked for was launched.
    Launched,
    /// The unit asked for has ended, in the way given.
    Joined { outcome: UnitOutcome },
}

/// Position of the first failed unit among `outcomes`, if any unit failed.
pub open spec fn first_failure(outcomes: Seq<UnitOutcome>) -> Option<int>
    decreases outcomes.len(),
{
    if outcomes.len() == 0 {
        None
    } else {
        match first_failure(outcomes.drop_last()) {
            Some(unit) => Some(unit),
            None => if outcomes.last() == UnitOutcome::Failed {
                Some(outcomes.len() - 1)
            } else {
                None
            },
        }
    }
}

/// What a dispatch returns once all of `outcomes` are known.
pub open spec fn verdict(outcomes: Seq<UnitOutcome>) -> Result<(), TaskFailure> {
    match first_failure(outcomes) {
        Some(unit) => Err(TaskFailure { unit: unit as usize }),
        None => Ok(()),
    }
}

/// `first_failure` finds a failed unit before which every unit completed, and
/// finds none exactly where every unit completed.
pub proof fn lemma_first_failure(outcomes: Seq<UnitOutcome>)
    ensures
        match first_failure(outcomes) {
            Some(unit) => {
                &&& 0 <= unit < outcomes.len()
                &&& outcomes[unit] == UnitOutcome::Failed
                &&& forall|i: int| 0 <= i < unit ==> outcomes[i] == UnitOutcome::Completed
            },
            None => forall|i: int| 0 <= i < outcomes.len() ==> outcomes[i] == UnitOutcome::Completed,
        },
    decreases outcomes.len(),
{
    if outcomes.len() > 0 {
        let earlier = outcomes.drop_last();
        lemma_first_failure(earlier);
        assert(forall|i: int| 0 <= i < earlier.len() ==> earlier[i] == outcomes[i]);
        assert(forall|i: int|
            0 <= i < outcomes.len() ==> outcomes[i] == UnitOutcome::Failed || outcomes[i]
                == UnitOutcome::Completed);
    }
}

/// The state of a dispatch as the contracts see it.
pub struct DispatchView {
    /// Number of units asked for.
    pub count: nat,
    /// Number of units launched so far.
    pub launched: nat,
    /// How the units joined so far ended, in launch order.
    pub outcomes: Seq<UnitOutcome>,
}

impl DispatchView {
    /// A dispatch of `count` units before anything has happened.
    pub open spec fn init(count: nat) -> DispatchView {
        DispatchView { count, launched: 0, outcomes: Seq::empty() }
    }

    /// The next thing to do: launch until `count` units run, then join them one
    /// by one, then finish.
    pub open spec fn pending(self) -> Action {
        if self.launched < self.count {
            Action::Launch { unit: self.launched as usize }
        } else if self.outcomes.len() < self.count {
            Action::Join { unit: self.outcomes.len() as usize }
        } else {
            Action::Finish { result: verdict(self.outcomes) }
        }
    }

    /// Whether `report` answers the pending action.
    pub open spec fn accepts(self, report: Report) -> bool {
        match report {
            Report::Launched => self.pending() is Launch,
            Report::Joined { .. } => self.pending() is Join,
        }
    }

    /// The state after `report`. A report that does not answer the pending
    /// action changes nothing.
    pub open spec fn after(self, report: Report) -> DispatchView {
        if !self.accepts(report) {
            self
        } else {
            match report {
                Report::Launched => DispatchView { launched: self.launched + 1, ..self },
                Report::Joined { outcome } => DispatchView {
                    outcomes: self.outcomes.push(outcome),
                    ..self
                },
            }
        }
    }

    /// The state after each of `reports` in turn.
    pub open spec fn after_all(self, reports: Seq<Report>) -> DispatchView
        decreases reports.len(),
    {
        if reports.len() == 0 {
            self
        } else {
            self.after_all(reports.drop_last()).after(reports.last())
        }
    }
}

/// What a driver reports that does as it is asked, when the units end as
/// `outcomes` says: one launch for each unit, then one join for each unit, in
/// launch order.
pub open spec fn faithful_reports(outcomes: Seq<UnitOutcome>) -> Seq<Report> {
    Seq::new(
        2 * outcomes.len(),
        |i: int|
            if i < outcomes.len() {
                Report::Launched
            } else {
                Report::Joined { outcome: outcomes[i - outcomes.len()] }
            },
    )
}

/// Where a dispatch stands after the first `done` reports of a faithful
/// driver: it launches until all units run and only then joins.
proof fn lemma_progress(outcomes: Seq<UnitOutcome>, done: int)
    requires
        0 <= done <= 2 * outcomes.len(),
    ensures
        DispatchView::init(outcomes.len()).after_all(faithful_reports(outcomes).take(done))
            == if done <= outcomes.len() {
            DispatchView { count: outcomes.len(), launched: done as nat, outcomes: Seq::empty() }
        } else {
            DispatchView {
                count: outcomes.len(),
                launched: outcomes.len(),
                outcomes: outcomes.take(done - outcomes.len()),
            }
        },
    decreases done,
{
    let reports = faithful_reports(outcomes);
    let prefix = reports.take(done);
    if done > 0 {
        lemma_progress(outcomes, done - 1);
        assert(prefix.drop_last() =~= reports.take(done - 1));
        assert(prefix.last() == reports[done - 1]);
        if done > outcomes.len() {
            let joined = done - outcomes.len();
            assert(outcomes.take(joined - 1).push(outcomes[joined - 1]) =~= outcomes.take(joined));
            assert(outcomes.take(0) =~= Seq::<UnitOutcome>::empty());
        }
    }
}

/// A dispatch finishes only after every unit was launched and joined, and then
/// with the first failure among them, or with success where there was none.
/// With a faithful driver and units that end as `outcomes` says, the dispatch
/// still has something to launch or to join after each report but the last,
/// and after the last it finishes with `verdict(outcomes)`.
pub proof fn lemma_dispatch_waits_for_all(outcomes: Seq<UnitOutcome>)
    ensures
        forall|done: int|
            0 <= done < 2 * outcomes.len() ==> !(#[trigger] DispatchView::init(
                outcomes.len(),
            ).after_all(faithful_reports(outcomes).take(done)).pending() is Finish),
        DispatchView::init(outcomes.len()).after_all(faithful_reports(outcomes)).pending()
            == (Action::Finish { result: verdict(outcomes) }),
{
    let reports = faithful_reports(outcomes);
    assert forall|done: int| 0 <= done < 2 * outcomes.len() implies !(#[trigger] DispatchView::init(
        outcomes.len(),
    ).after_all(reports.take(done)).pending() is Finish) by {
        lemma_progress(outcomes, done);
    }
    let all = (2 * outcomes.len()) as int;
    lemma_progress(outcomes, all);
    assert(reports.take(all) =~= reports);
    assert(outcomes.take(outcomes.len() as int) =~= outcomes);
}

/// One dispatch of a fixed number of units.
pub struct Dispatch {
    count: usize,
    launched: usize,
    joined: usize,
    failed: Option<usize>,
    outcomes: Ghost<Seq<UnitOutcome>>,
}

impl View for Dispatch {
    type V = DispatchView;

    closed spec fn view(&self) -> DispatchView {
        DispatchView {
            count: self.count as nat,
            launched: self.launched as nat,
            outcomes: self.outcomes@,
        }
    }
}

impl Dispatch {
    #[verifier::type_invariant]
    spec fn well_formed(self) -> bool {
        &&& self.launched <= self.count
        &&& self.joined <= self.launched
        &&& self.joined > 0 ==> self.launched == self.count
        &&& self.outcomes@.len() == self.joined
        &&& match first_failure(self.outcomes@) {
            Some(unit) => self.failed == Some(unit as usize),
            None => self.failed is None,
        }
    }

    /// A dispatch of `count` units; nothing is launched yet.
    pub fn new(count: usize) -> (dispatch: Dispatch)
        ensures
            dispatch@ == DispatchView::init(count as nat),
    {
        Dispatch { count, launched: 0, joined: 0, failed: None, outcomes: Ghost(Seq::empty()) }
    }

    /// What the driver has to do now.
    pub fn pending(&self) -> (action: Action)
        ensures
            action == self@.pending(),
    {
        proof {
            use_type_invariant(self);
            lemma_first_failure(self.outcomes@);
        }
        if self.launched < self.count {
            Action::Launch { unit: self.launched }
        } else if self.joined < self.count {
            Action::Join { unit: self.joined }
        } else {
            match self.failed {
                Some(unit) => Action::Finish { result: Err(TaskFailure { unit }) },
                None => Action::Finish { result: Ok(()) },
            }
        }
    }

    /// Takes in what the driver reports. Returns whether the report answered the
    /// pending action; one that did not is ignored.
    pub fn advance(&mut self, report: Report) -> (accepted: bool)
        ensures
            accepted == old(self)@.accepts(report),
            final(self)@ == old(self)@.after(report),
    {
        proof {
            use_type_invariant(&*self);
            lemma_first_failure(self.outcomes@);
        }
        match report {
            Report::Launched => {
                if self.launched < self.count {
                    self.launched = self.launched + 1;
                    true
                } else {
                    false
                }
            },
            Report::Joined { outcome } => {
                if self.launched == self.count && self.joined < self.count {
                    let failed = match (self.failed, outcome) {
                        (None, UnitOutcome::Failed) => Some(self.joined),
                        (earlier, _) => earlier,
                    };
                    let ghost extended = self.outcomes@.push(outcome);
                    proof {
                        assert(extended.drop_last() =~= self.outcomes@);
                    }
                    *self = Dispatch {
                        count: self.count,
                        launched: self.launched,
                        joined: self.joined + 1,
                        failed,
                        outcomes: Ghost(extended),
                    };
                    true
                } else {
                    false
                }
            },
        }
    }
}

} // verus!
