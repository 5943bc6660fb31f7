use vstd::prelude::*;

use crate::sweeper::SweeperError;
use crate::target::CleanupResult;
use crate::target::Target;

verus! {

/// The lifecycle of one selected target under the cleanup executor. The
/// transitions run strictly `Pending` to `Executing` to `Cleaned` or
/// `Failed`, and never reverse.
#[derive(Debug)]
pub enum SweepingTargetState {
    /// Waiting its turn, still holding the target.
    Pending(Target),
    /// Its cleanup runs right now.
    Executing,
    /// Cleanup finished, with its result and how long it took.
    Cleaned { result: CleanupResult, elapsed_millis: u64 },
    /// Cleanup failed; the failure stays with this target alone.
    Failed(SweeperError),
}

/// A state the executor never touches again.
pub open spec fn is_terminal(state: SweepingTargetState) -> bool {
    state is Cleaned || state is Failed
}

/// What the executor asks the caller to do for one target: run its cleanup,
/// and remove the directory tree only when this is not a dry run.
pub struct CleanupStep {
    pub target: Target,
    pub remove_tree: bool,
}

/// Drives a selected batch of targets through the sweeping state machine,
/// strictly one at a time, in order. The caller performs each target's
/// cleanup between `begin_next` and `finish`.
#[derive(Debug)]
pub struct CleanupExecutor {
    states: Vec<SweepingTargetState>,
    cursor: usize,
    in_flight: bool,
    started: bool,
    dry_run: bool,
}

impl CleanupExecutor {
    /// Every target's current state, in selection order.
    pub closed spec fn states(&self) -> Seq<SweepingTargetState> {
        self.states@
    }

    /// How many targets are already in a terminal state.
    pub closed spec fn cursor(&self) -> int {
        self.cursor as int
    }

    /// Whether one target's cleanup is underway.
    pub closed spec fn in_flight(&self) -> bool {
        self.in_flight
    }

    pub closed spec fn is_started(&self) -> bool {
        self.started
    }

    pub closed spec fn is_dry_run(&self) -> bool {
        self.dry_run
    }

    pub open spec fn wf(&self) -> bool {
        &&& self.cursor() <= self.states().len()
        &&& forall|i: int| 0 <= i < self.cursor() ==> is_terminal(#[trigger] self.states()[i])
        &&& forall|i: int|
            self.cursor() < i < self.states().len() ==> #[trigger] self.states()[i] is Pending
        &&& self.in_flight() ==> self.cursor() < self.states().len() && self.states()[self.cursor()] is Executing
        &&& !self.in_flight() && self.cursor() < self.states().len() ==> self.states()[self.cursor()] is Pending
    }

    /// Builds one executor over the targets moved out of a selection, each
    /// starting out `Pending`.
    pub fn new(targets: Vec<Target>, dry_run: bool) -> (r: CleanupExecutor)
        ensures
            r.wf(),
            r.states().len() == targets@.len(),
            forall|i: int|
                0 <= i < targets@.len() ==> #[trigger] r.states()[i] == SweepingTargetState::Pending(
                    targets@[i],
                ),
            r.cursor() == 0,
            !r.in_flight(),
            !r.is_started(),
            r.is_dry_run() == dry_run,
    {
        let ghost orig_targets = targets@;
        let mut targets = targets;
        let total = targets.len();
        let mut states: Vec<SweepingTargetState> = Vec::new();
        let mut i: usize = 0;
        proof {
            assert(targets@ =~= orig_targets.skip(0));
        }
        while i < total
            invariant
                i <= total,
                total == orig_targets.len(),
                targets@ == orig_targets.skip(i as int),
                states@.len() == i,
                forall|j: int|
                    0 <= j < i ==> #[trigger] states@[j] == SweepingTargetState::Pending(
                        orig_targets[j],
                    ),
            decreases total - i,
        {
            let ghost pre = targets@;
            let target = targets.remove(0);
            states.push(SweepingTargetState::Pending(target));
            i += 1;
            proof {
                assert forall|m: int| 0 <= m < targets@.len() implies targets@[m]
                    == orig_targets.skip(i as int)[m] by {
                    assert(targets@[m] == pre[m + 1]);
                }
                assert(targets@ =~= orig_targets.skip(i as int));
            }
        }
        CleanupExecutor { states, cursor: 0, in_flight: false, started: false, dry_run }
    }

    /// The explicit start trigger. It is idempotent: the first call reports a
    /// fresh start, a second one while active changes nothing.
    pub fn start(&mut self) -> (fresh: bool)
        ensures
            final(self).is_started(),
            fresh == !old(self).is_started(),
            final(self).states() == old(self).states(),
            final(self).cursor() == old(self).cursor(),
            final(self).in_flight() == old(self).in_flight(),
            final(self).is_dry_run() == old(self).is_dry_run(),
    {
        let fresh = !self.started;
        self.started = true;
        fresh
    }

    /// Atomically turns the next `Pending` target `Executing` and hands it
    /// out for cleanup, or reports that nothing is ready: either a cleanup is
    /// already underway or every target is done.
    pub fn begin_next(&mut self) -> (r: Option<CleanupStep>)
        requires
            old(self).wf(),
        ensures
            final(self).wf(),
            final(self).is_started() == old(self).is_started(),
            final(self).is_dry_run() == old(self).is_dry_run(),
            final(self).cursor() == old(self).cursor(),
            old(self).in_flight() || old(self).cursor() == old(self).states().len() ==> r is None
                && final(self).states() == old(self).states() && final(self).in_flight() == old(
                self,
            ).in_flight(),
            !old(self).in_flight() && old(self).cursor() < old(self).states().len() ==> {
                &&& r matches Some(step) ==> {
                    &&& old(self).states()[old(self).cursor()] == SweepingTargetState::Pending(
                        step.target,
                    )
                    &&& step.remove_tree == !old(self).is_dry_run()
                }
                &&& r is Some
                &&& final(self).in_flight()
                &&& final(self).states() == old(self).states().update(
                    old(self).cursor(),
                    SweepingTargetState::Executing,
                )
            },
    {
        if self.in_flight || self.cursor >= self.states.len() {
            return None;
        }
        let state = self.states.remove(self.cursor);
        self.states.insert(self.cursor, SweepingTargetState::Executing);
        proof {
            assert(self.states@ =~= old(self).states().update(
                old(self).cursor(),
                SweepingTargetState::Executing,
            ));
        }
        match state {
            SweepingTargetState::Pending(target) => {
                self.in_flight = true;
                Some(CleanupStep { target, remove_tree: !self.dry_run })
            },
            orig_state => {
                let _ = self.states.remove(self.cursor);
                self.states.insert(self.cursor, orig_state);
                None
            },
        }
    }

    /// Records the outcome of the cleanup underway: the target turns
    /// `Cleaned` with its result and elapsed time, or `Failed` with its
    /// error, and the executor moves on to the next one.
    pub fn finish(&mut self, outcome: Result<CleanupResult, SweeperError>, elapsed_millis: u64)
        requires
            old(self).wf(),
            old(self).in_flight(),
        ensures
            final(self).wf(),
            final(self).is_started() == old(self).is_started(),
            final(self).is_dry_run() == old(self).is_dry_run(),
            !final(self).in_flight(),
            final(self).cursor() == old(self).cursor() + 1,
            outcome matches Ok(result) ==> final(self).states() == old(self).states().update(
                old(self).cursor(),
                SweepingTargetState::Cleaned { result, elapsed_millis },
            ),
            outcome matches Err(error) ==> final(self).states() == old(self).states().update(
                old(self).cursor(),
                SweepingTargetState::Failed(error),
            ),
    {
        let recorded = match outcome {
            Ok(result) => SweepingTargetState::Cleaned { result, elapsed_millis },
            Err(error) => SweepingTargetState::Failed(error),
        };
        let _ = self.states.remove(self.cursor);
        self.states.insert(self.cursor, recorded);
        proof {
            assert(self.states@ =~= old(self).states().update(old(self).cursor(), recorded));
        }
        let total = self.states.len();
        proof {
            assert(self.cursor < total);
        }
        self.cursor = self.cursor + 1;
        self.in_flight = false;
    }

    /// Whether every target has reached a terminal state.
    pub fn is_complete(&self) -> (r: bool)
        ensures
            r == (self.cursor() == self.states().len() && !self.in_flight()),
    {
        self.cursor == self.states.len() && !self.in_flight
    }

    /// How many targets this executor drives.
    pub fn len(&self) -> (r: usize)
        ensures
            r == self.states().len(),
    {
        self.states.len()
    }

    /// A snapshot of one target's current state.
    pub fn state(&self, index: usize) -> (r: &SweepingTargetState)
        requires
            index < self.states().len(),
        ensures
            *r == self.states()[index as int],
    {
        &self.states[index]
    }
}

/// Once the executor completes, every selected target is `Cleaned` or
/// `Failed`: none is left `Pending` or `Executing`.
pub proof fn lemma_complete_all_terminal(executor: &CleanupExecutor)
    requires
        executor.wf(),
        executor.cursor() == executor.states().len(),
        !executor.in_flight(),
    ensures
        forall|i: int| 0 <= i < executor.states().len() ==> is_terminal(
            #[trigger] executor.states()[i],
        ),
{
}

} // verus!
