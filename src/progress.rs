//! The simulated class-assignment task: a progress counter that a timer
//! advances one step at a time, from 0 to 100, guarded against restarts.
//!
//! The decisions live here as a state machine from state and event to next
//! state and action; the caller owns the timer, performs each action and
//! reports back each event.

use vstd::prelude::*;

verus! {

/// The number of steps in one run; progress is reported in steps.
pub const STEPS: u8 = 100;

/// The pause, in milliseconds, before each step.
pub const STEP_DELAY_MS: u32 = 10;

#[derive(Debug, Clone, Copy, PartialEq, Eq, Structural)]
pub enum TaskEvent {
    /// The user asked to start the task.
    Start,
    /// The pause before the next step has elapsed.
    StepElapsed,
}

#[derive(Debug, Clone, Copy, PartialEq, Eq, Structural)]
pub enum TaskAction {
    /// Nothing is to be scheduled.
    Nothing,
    /// Wait `STEP_DELAY_MS`, then report `TaskEvent::StepElapsed`.
    WaitStep,
}

/// What the task shows: whether it runs, and how many steps it has taken.
#[derive(Debug, Clone, Copy, PartialEq, Eq, Structural)]
pub struct TaskState {
    pub running: bool,
    pub progress: u8,
}

impl TaskState {
    /// Progress stays within one run, and a running task has steps left.
    pub open spec fn wf(self) -> bool {
        &&& self.progress <= STEPS
        &&& self.running ==> self.progress < STEPS
    }
}

/// The progress task; its state always satisfies `TaskState::wf`.
#[derive(Debug, Clone, Copy, PartialEq, Eq, Structural)]
pub struct ProgressTask {
    state: TaskState,
}

impl View for ProgressTask {
    type V = TaskState;

    closed spec fn view(&self) -> TaskState {
        self.state
    }
}

/// One transition of the task.
pub open spec fn step(s: TaskState, e: TaskEvent) -> (TaskState, TaskAction) {
    match e {
        TaskEvent::Start => if s.running {
            (s, TaskAction::Nothing)
        } else {
            (TaskState { running: true, progress: 0 }, TaskAction::WaitStep)
        },
        TaskEvent::StepElapsed => if !s.running {
            (s, TaskAction::Nothing)
        } else if s.progress + 1 >= STEPS {
            (TaskState { running: false, progress: STEPS }, TaskAction::Nothing)
        } else {
            (TaskState { running: true, progress: (s.progress + 1) as u8 }, TaskAction::WaitStep)
        },
    }
}

/// The state after `k` elapsed steps.
pub open spec fn after_steps(s: TaskState, k: nat) -> TaskState
    decreases k,
{
    if k == 0 {
        s
    } else {
        step(after_steps(s, (k - 1) as nat), TaskEvent::StepElapsed).0
    }
}

impl ProgressTask {
    #[verifier::type_invariant]
    spec fn inv(&self) -> bool {
        self.state.wf()
    }

    /// An idle task that has made no progress.
    pub fn new() -> (r: ProgressTask)
        ensures
            r@ == (TaskState { running: false, progress: 0 }),
    {
        ProgressTask { state: TaskState { running: false, progress: 0 } }
    }

    /// Applies one event and returns what the caller is to do next.
    pub fn handle(&mut self, e: TaskEvent) -> (r: TaskAction)
        ensures
            final(self)@.wf(),
            (final(self)@, r) == step(old(self)@, e),
    {
        proof {
            use_type_invariant(&*self);
        }
        let s = self.state;
        match e {
            TaskEvent::Start => {
                if s.running {
                    TaskAction::Nothing
                } else {
                    *self = ProgressTask { state: TaskState { running: true, progress: 0 } };
                    TaskAction::WaitStep
                }
            },
            TaskEvent::StepElapsed => {
                if !s.running {
                    TaskAction::Nothing
                } else if s.progress + 1 >= STEPS {
                    *self = ProgressTask { state: TaskState { running: false, progress: STEPS } };
                    TaskAction::Nothing
                } else {
                    *self = ProgressTask {
                        state: TaskState { running: true, progress: s.progress + 1 },
                    };
                    TaskAction::WaitStep
                }
            },
        }
    }

    pub fn is_running(&self) -> (r: bool)
        ensures
            r == self@.running,
    {
        self.state.running
    }

    pub fn progress(&self) -> (r: u8)
        ensures
            r == self@.progress,
            r <= STEPS,
    {
        proof {
            use_type_invariant(self);
        }
        self.state.progress
    }

    /// Whether a run has finished and no other has started since.
    pub fn is_complete(&self) -> (r: bool)
        ensures
            r == (self@.progress == STEPS && !self@.running),
    {
        self.state.progress == STEPS && !self.state.running
    }
}

/// Starting an idle task runs it through progress `1, 2, ..., 100` in order:
/// after each of the first 99 steps it is running with progress equal to the
/// number of steps taken and asks to wait again; the hundredth step leaves it
/// idle at 100 and schedules nothing more.
pub proof fn lemma_run_to_completion(s: TaskState, k: nat)
    requires
        s.wf(),
        !s.running,
        1 <= k <= STEPS,
    ensures
        ({
            let started = step(s, TaskEvent::Start).0;
            let before = after_steps(started, (k - 1) as nat);
            let (t, a) = step(before, TaskEvent::StepElapsed);
            &&& t == after_steps(started, k)
            &&& k < STEPS ==> t == (TaskState { running: true, progress: k as u8 }) && a
                == TaskAction::WaitStep
            &&& k == STEPS ==> t == (TaskState { running: false, progress: STEPS }) && a
                == TaskAction::Nothing
        }),
    decreases k,
{
    let started = step(s, TaskEvent::Start).0;
    if k > 1 {
        lemma_run_to_completion(s, (k - 1) as nat);
    }
    assert(after_steps(started, (k - 1) as nat) == TaskState { running: true, progress: (k - 1) as u8 });
}

/// Starting the task while it runs changes nothing and schedules nothing.
pub proof fn lemma_start_while_running(s: TaskState)
    requires
        s.running,
    ensures
        step(s, TaskEvent::Start) == (s, TaskAction::Nothing),
{
}

} // verus!
