use vstd::prelude::*;

verus! {

/// Progress is reported on every epoch whose index is a multiple of this.
pub const REPORT_INTERVAL: usize = 100;

/// Whether epoch `epoch` reports its progress.
pub open spec fn reports(epoch: nat) -> bool {
    epoch % (REPORT_INTERVAL as nat) == 0
}

/// Tells whether the trainer reports its progress after epoch `epoch`.
pub fn is_report_epoch(epoch: usize) -> (r: bool)
    ensures
        r == reports(epoch as nat),
{
    epoch % REPORT_INTERVAL == 0
}

/// What a training run asks its trainer to do next.
#[derive(PartialEq, Eq, Structural, Debug, Clone, Copy)]
pub enum Step {
    /// Run epoch `index`; when `report` holds, report progress after it.
    Epoch { index: usize, report: bool },
    /// Every planned epoch has run.
    Finished,
}

/// The step that a run of `epochs` epochs, of which `completed` have run,
/// hands out next.
pub open spec fn next_step(epochs: nat, completed: nat) -> Step {
    if completed < epochs {
        Step::Epoch { index: completed as usize, report: reports(completed) }
    } else {
        Step::Finished
    }
}

/// How many epochs have run after that step.
pub open spec fn completed_after_step(epochs: nat, completed: nat) -> nat {
    if completed < epochs {
        completed + 1
    } else {
        completed
    }
}

/// How many epochs have run after `calls` steps of a fresh run.
pub open spec fn completed_after_calls(epochs: nat, calls: nat) -> nat
    decreases calls,
{
    if calls == 0 {
        0
    } else {
        completed_after_step(epochs, completed_after_calls(epochs, (calls - 1) as nat))
    }
}

/// The steps handed out by the first `calls` steps of a fresh run.
pub open spec fn trace(epochs: nat, calls: nat) -> Seq<Step>
    decreases calls,
{
    if calls == 0 {
        Seq::empty()
    } else {
        trace(epochs, (calls - 1) as nat).push(
            next_step(epochs, completed_after_calls(epochs, (calls - 1) as nat)),
        )
    }
}

/// The number of steps in `steps` that ask for a progress report.
pub open spec fn reporting_steps(steps: Seq<Step>) -> nat
    decreases steps.len(),
{
    if steps.len() == 0 {
        0
    } else {
        reporting_steps(steps.drop_last()) + match steps.last() {
            Step::Epoch { report, .. } => if report { 1nat } else { 0nat },
            Step::Finished => 0nat,
        }
    }
}

/// After `calls` steps, a fresh run of `epochs` epochs has completed
/// `min(calls, epochs)` of them.
pub proof fn lemma_completed_after_calls(epochs: nat, calls: nat)
    ensures
        completed_after_calls(epochs, calls) == if calls <= epochs { calls } else { epochs },
    decreases calls,
{
    if calls > 0 {
        lemma_completed_after_calls(epochs, (calls - 1) as nat);
    }
}

/// A run of `epochs` epochs hands out the epochs `0, 1, ..., epochs - 1` in
/// order, each exactly once, each asking for a report exactly when its index
/// is a multiple of the report interval, and `Finished` on every later step.
pub proof fn lemma_run_enumerates_epochs(epochs: nat, calls: nat)
    requires
        epochs <= usize::MAX,
    ensures
        trace(epochs, calls).len() == calls,
        forall|i: int|
            0 <= i < calls ==> #[trigger] trace(epochs, calls)[i] == if i < epochs {
                Step::Epoch { index: i as usize, report: reports(i as nat) }
            } else {
                Step::Finished
            },
    decreases calls,
{
    if calls > 0 {
        lemma_run_enumerates_epochs(epochs, (calls - 1) as nat);
        lemma_completed_after_calls(epochs, (calls - 1) as nat);
    }
}

/// Among the first `n` epochs, `ceil(n / interval)` report progress: epoch 0
/// always does, and then every interval-th epoch.
pub proof fn lemma_reports_in_trace(epochs: nat, calls: nat)
    requires
        epochs <= usize::MAX,
    ensures
        reporting_steps(trace(epochs, calls)) == ((if calls <= epochs { calls } else { epochs })
            + REPORT_INTERVAL - 1) / REPORT_INTERVAL as int,
    decreases calls,
{
    if calls > 0 {
        let prev = (calls - 1) as nat;
        lemma_reports_in_trace(epochs, prev);
        lemma_completed_after_calls(epochs, prev);
        assert(trace(epochs, calls).drop_last() =~= trace(epochs, prev));
    }
}

/// A run of `epochs` epochs asks for `ceil(epochs / interval)` progress
/// reports in all.
pub proof fn lemma_report_count(epochs: nat)
    requires
        epochs <= usize::MAX,
    ensures
        reporting_steps(trace(epochs, epochs)) == (epochs + REPORT_INTERVAL - 1)
            / REPORT_INTERVAL as int,
{
    lemma_reports_in_trace(epochs, epochs);
}

/// The epoch loop of a training run: it hands out the epochs `0..epochs`,
/// one per step and in order, and then `Finished`.
pub struct TrainingRun {
    epochs: usize,
    completed: usize,
}

impl TrainingRun {
    #[verifier::type_invariant]
    spec fn within_plan(self) -> bool {
        self.completed <= self.epochs
    }

    /// The number of epochs the run was planned with.
    pub closed spec fn planned(self) -> nat {
        self.epochs as nat
    }

    /// The number of epochs handed out so far.
    pub closed spec fn done(self) -> nat {
        self.completed as nat
    }

    /// Starts a run of `epochs` epochs.
    pub fn new(epochs: usize) -> (run: TrainingRun)
        ensures
            run.planned() == epochs as nat,
            run.done() == 0,
    {
        TrainingRun { epochs, completed: 0 }
    }

    /// The number of epochs the run was planned with.
    pub fn epochs(&self) -> (n: usize)
        ensures
            n as nat == self.planned(),
    {
        self.epochs
    }

    /// The number of epochs handed out so far.
    pub fn completed(&self) -> (n: usize)
        ensures
            n as nat == self.done(),
            self.done() <= self.planned(),
    {
        proof {
            use_type_invariant(self);
        }
        self.completed
    }

    /// Whether every planned epoch has been handed out.
    pub fn is_finished(&self) -> (b: bool)
        ensures
            b == (self.done() >= self.planned()),
    {
        self.completed >= self.epochs
    }

    /// Hands out the next step and records it as done.
    pub fn step(&mut self) -> (s: Step)
        ensures
            s == next_step(old(self).planned(), old(self).done()),
            final(self).planned() == old(self).planned(),
            final(self).done() == completed_after_step(old(self).planned(), old(self).done()),
    {
        proof {
            use_type_invariant(&*self);
        }
        if self.completed < self.epochs {
            let index = self.completed;
            self.completed = index + 1;
            Step::Epoch { index, report: is_report_epoch(index) }
        } else {
            Step::Finished
        }
    }
}

} // verus!
