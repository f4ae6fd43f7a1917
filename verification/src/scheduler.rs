//! The scheduler of a run: it draws seeds, keeps at most a fixed number of
//! trials in flight, and accounts for every trial that ends.
//!
//! The scheduler starts nothing itself. The caller asks `next_action`,
//! starts the trial that a `Dispatch` names, waits for the end of a trial
//! when told to, and reports each end with `complete`.

use crate::seed::{SeedIterator, SeedSupply};
use crate::text::{append_decimal, decimal_digits, format_decimal};
use crate::trial::Verdict;
use vstd::prelude::*;
use vstd::string::StringExecFns;

verus! {

/// How many trials run side by side when no limit is configured.
pub const DEFAULT_CHUNK_SIZE: usize = 10;

/// The concurrency limit of a run: what was configured, or the default.
pub fn concurrency_limit(chunk_size: Option<usize>) -> (limit: usize)
    ensures
        limit == match chunk_size {
            Some(n) => n,
            None => DEFAULT_CHUNK_SIZE,
        },
{
    match chunk_size {
        Some(n) => n,
        None => DEFAULT_CHUNK_SIZE,
    }
}

/// What the scheduler wants done next.
#[derive(Clone, Copy, Debug, PartialEq, Eq, Structural)]
pub enum SchedulerAction {
    /// Start the trial of this seed; it is now in flight.
    Dispatch(u32),
    /// Wait until a trial in flight has ended, and report it.
    AwaitCompletion,
    /// Nothing: every seed was run and every trial has ended.
    Finished,
    /// End the run at once; trials in flight are abandoned.
    Abort,
}

/// The kind of a `SchedulerAction`.
#[derive(Clone, Copy, Debug, PartialEq, Eq, Structural)]
pub enum Decision {
    Dispatch,
    AwaitCompletion,
    Finished,
    Abort,
}

impl SchedulerAction {
    /// The kind of this action.
    pub open spec fn decision(self) -> Decision {
        match self {
            SchedulerAction::Dispatch(_) => Decision::Dispatch,
            SchedulerAction::AwaitCompletion => Decision::AwaitCompletion,
            SchedulerAction::Finished => Decision::Finished,
            SchedulerAction::Abort => Decision::Abort,
        }
    }
}

/// What is shown of the progress of a run. A counter that no longer fits
/// its type stays at the largest value of the type.
#[derive(Clone, Copy, Debug, PartialEq, Eq, Structural)]
pub struct RunProgress {
    /// Trials started so far.
    pub dispatched: usize,
    /// Trials ended so far.
    pub completed: usize,
    /// Trials that the run will have started when it ends, where the supply
    /// of seeds is finite.
    pub total: Option<usize>,
}

impl RunProgress {
    /// The progress as it is logged: the trials ended, a slash, and the
    /// trials in all, or the sign of infinity where the supply is endless.
    pub open spec fn description(self) -> Seq<char> {
        decimal_digits(self.completed as nat) + "/"@ + match self.total {
            Some(total) => decimal_digits(total as nat),
            None => "\u{221e}"@,
        }
    }

    /// The progress as it is logged.
    pub fn label(&self) -> (text: String)
        ensures
            text@ == self.description(),
    {
        let mut text = format_decimal(self.completed as u64);
        text.append("/");
        match self.total {
            Some(total) => append_decimal(&mut text, total as u64),
            None => text.append("\u{221e}"),
        }
        text
    }
}

/// `count`, or the largest `usize` where it does not fit.
pub open spec fn shown(count: nat) -> usize {
    if count <= usize::MAX {
        count as usize
    } else {
        usize::MAX
    }
}

/// The state of a run.
pub struct SchedulerState {
    /// The most trials that may be in flight at once.
    pub limit: nat,
    /// Trials started and not yet ended.
    pub in_flight: nat,
    /// Trials started.
    pub dispatched: nat,
    /// Trials ended.
    pub completed: nat,
    /// The seeds not yet drawn.
    pub supply: SeedSupply,
    /// How many seeds the supply held at the start, where it was finite.
    pub total: Option<nat>,
    /// Whether a trial has asked for the run to end.
    pub aborted: bool,
}

/// What can happen to a run.
pub enum SchedulerEvent {
    /// The caller asks for the next action, and performs it if it is a
    /// dispatch.
    Poll,
    /// A trial in flight has ended, with this verdict.
    Completion(Verdict),
}

impl SchedulerState {
    /// The state of a run that is about to begin.
    pub open spec fn start(supply: SeedSupply, limit: nat) -> SchedulerState {
        SchedulerState {
            limit,
            in_flight: 0,
            dispatched: 0,
            completed: 0,
            supply,
            total: supply.remaining(),
            aborted: false,
        }
    }

    /// What holds of a run at every moment: no more trials are in flight
    /// than the limit allows; every trial started is either in flight or
    /// ended, and counted once; and, of a finite supply, every seed is
    /// either still to come or was started.
    pub open spec fn balanced(self) -> bool {
        &&& self.limit >= 1
        &&& self.in_flight <= self.limit
        &&& self.completed + self.in_flight == self.dispatched
        &&& self.total == match self.supply.remaining() {
            Some(left) => Some(self.dispatched + left),
            None => None,
        }
    }

    /// Whether another trial can be started now.
    pub open spec fn admits(self) -> bool {
        &&& !self.aborted
        &&& self.in_flight < self.limit
        &&& self.supply.has_next()
    }

    /// What the scheduler decides in this state.
    pub open spec fn decision(self) -> Decision {
        if self.aborted {
            Decision::Abort
        } else if self.admits() {
            Decision::Dispatch
        } else if self.in_flight > 0 {
            Decision::AwaitCompletion
        } else {
            Decision::Finished
        }
    }

    /// The state after the next seed was drawn and its trial started.
    pub open spec fn dispatch(self) -> SchedulerState
        recommends
            self.admits(),
    {
        SchedulerState {
            in_flight: self.in_flight + 1,
            dispatched: self.dispatched + 1,
            supply: self.supply.after_next(),
            ..self
        }
    }

    /// The state after a trial has ended with `verdict`. Where no trial is in
    /// flight there is none to end, and nothing changes.
    pub open spec fn complete(self, verdict: Verdict) -> SchedulerState {
        if self.in_flight > 0 {
            SchedulerState {
                in_flight: (self.in_flight - 1) as nat,
                completed: self.completed + 1,
                aborted: self.aborted || verdict == Verdict::Abort,
                ..self
            }
        } else {
            self
        }
    }

    /// The state after `event`.
    pub open spec fn apply(self, event: SchedulerEvent) -> SchedulerState {
        match event {
            SchedulerEvent::Poll => if self.decision() == Decision::Dispatch {
                self.dispatch()
            } else {
                self
            },
            SchedulerEvent::Completion(verdict) => self.complete(verdict),
        }
    }

    /// The state after `events`, in order.
    pub open spec fn run(self, events: Seq<SchedulerEvent>) -> SchedulerState
        decreases events.len(),
    {
        if events.len() == 0 {
            self
        } else {
            self.run(events.drop_last()).apply(events.last())
        }
    }
}

/// The scheduler of a run.
pub struct Scheduler {
    limit: usize,
    in_flight: usize,
    dispatched: usize,
    completed: usize,
    total: Option<usize>,
    source: SeedIterator,
    aborted: bool,
    started: Ghost<nat>,
    ended: Ghost<nat>,
}

impl View for Scheduler {
    type V = SchedulerState;

    closed spec fn view(&self) -> SchedulerState {
        SchedulerState {
            limit: self.limit as nat,
            in_flight: self.in_flight as nat,
            dispatched: self.started@,
            completed: self.ended@,
            supply: self.source@,
            total: match self.total {
                Some(t) => Some(t as nat),
                None => None,
            },
            aborted: self.aborted,
        }
    }
}

impl Scheduler {
    /// Whether the scheduler is in a state that a run can reach, and its
    /// counters agree with that state.
    pub closed spec fn wf(&self) -> bool {
        &&& self@.balanced()
        &&& self.dispatched == shown(self.started@)
        &&& self.completed == shown(self.ended@)
    }

    /// The scheduler of a run over the seeds of `source`, with at most
    /// `limit` trials in flight.
    pub fn new(source: SeedIterator, limit: usize) -> (scheduler: Scheduler)
        requires
            limit >= 1,
        ensures
            scheduler.wf(),
            scheduler@.balanced(),
            scheduler@ == SchedulerState::start(source@, limit as nat),
    {
        let total = source.remaining();
        Scheduler {
            limit,
            in_flight: 0,
            dispatched: 0,
            completed: 0,
            total,
            source,
            aborted: false,
            started: Ghost(0),
            ended: Ghost(0),
        }
    }

    /// What is to be done next.
    ///
    /// After a trial has asked for the run to end, the answer is `Abort`.
    /// Otherwise, while fewer trials than the limit are in flight and the
    /// supply has a seed, the seed is drawn and its trial is to be started.
    /// Otherwise a trial in flight is to be awaited, or, with none in
    /// flight, the run is finished.
    pub fn next_action(&mut self) -> (action: SchedulerAction)
        requires
            old(self).wf(),
        ensures
            final(self).wf(),
            final(self)@.balanced(),
            action.decision() == old(self)@.decision(),
            action matches SchedulerAction::Dispatch(seed) ==> old(self)@.supply.yields(seed),
            final(self)@ == old(self)@.apply(SchedulerEvent::Poll),
    {
        if self.aborted {
            return SchedulerAction::Abort;
        }
        if self.in_flight < self.limit {
            if let Some(seed) = self.source.next() {
                self.in_flight = self.in_flight + 1;
                self.dispatched = self.dispatched.saturating_add(1);
                proof {
                    self.started@ = self.started@ + 1;
                }
                return SchedulerAction::Dispatch(seed);
            }
        }
        if self.in_flight > 0 {
            SchedulerAction::AwaitCompletion
        } else {
            SchedulerAction::Finished
        }
    }

    /// Accounts for the end of a trial, whatever its outcome, and notes a
    /// verdict that ends the run.
    ///
    /// Returns whether a trial was in flight. Where none was, nothing
    /// changes.
    pub fn complete(&mut self, verdict: Verdict) -> (counted: bool)
        requires
            old(self).wf(),
        ensures
            final(self).wf(),
            final(self)@.balanced(),
            counted == (old(self)@.in_flight > 0),
            final(self)@ == old(self)@.apply(SchedulerEvent::Completion(verdict)),
    {
        if self.in_flight == 0 {
            return false;
        }
        self.in_flight = self.in_flight - 1;
        self.completed = self.completed.saturating_add(1);
        proof {
            self.ended@ = self.ended@ + 1;
        }
        if verdict == Verdict::Abort {
            self.aborted = true;
        }
        true
    }

    /// The counters of the run.
    pub fn progress(&self) -> (progress: RunProgress)
        requires
            self.wf(),
        ensures
            progress.dispatched == shown(self@.dispatched),
            progress.completed == shown(self@.completed),
            self@.total == match progress.total {
                Some(t) => Some(t as nat),
                None => None,
            },
    {
        RunProgress { dispatched: self.dispatched, completed: self.completed, total: self.total }
    }

    /// How many trials are in flight.
    pub fn in_flight(&self) -> (count: usize)
        ensures
            count == self@.in_flight,
    {
        self.in_flight
    }

    /// The most trials that may be in flight at once.
    pub fn limit(&self) -> (limit: usize)
        ensures
            limit == self@.limit,
    {
        self.limit
    }
}

// ---------------------------------------------------------------------------
// What holds of every run
// ---------------------------------------------------------------------------

/// One more draw after `count` draws makes `count + 1` draws.
proof fn lemma_one_more_draw(supply: SeedSupply, count: nat)
    requires
        supply.after_draws(count).has_next(),
    ensures
        supply.after_draws(count).after_next() == supply.after_draws(count + 1),
    decreases count,
{
    if count > 0 {
        if supply.has_next() {
            lemma_one_more_draw(supply.after_next(), (count - 1) as nat);
        }
    } else {
        assert(supply.after_next().after_draws(0) == supply.after_next());
    }
}

/// Every step of a run keeps it balanced, and takes no count back.
pub proof fn lemma_step_keeps_balance(state: SchedulerState, event: SchedulerEvent)
    requires
        state.balanced(),
    ensures
        state.apply(event).balanced(),
        state.apply(event).limit == state.limit,
        state.apply(event).total == state.total,
        state.apply(event).dispatched >= state.dispatched,
        state.apply(event).completed >= state.completed,
{
}

/// At no moment of a run are more trials in flight than the limit allows,
/// whatever the supply of seeds, whatever the limit, and in whatever order
/// trials are started and end.
pub proof fn lemma_in_flight_within_limit(
    supply: SeedSupply,
    limit: nat,
    events: Seq<SchedulerEvent>,
)
    requires
        limit >= 1,
    ensures
        SchedulerState::start(supply, limit).run(events).balanced(),
        SchedulerState::start(supply, limit).run(events).limit == limit,
        SchedulerState::start(supply, limit).run(events).total == supply.remaining(),
        SchedulerState::start(supply, limit).run(events).in_flight <= limit,
    decreases events.len(),
{
    if events.len() > 0 {
        lemma_in_flight_within_limit(supply, limit, events.drop_last());
        lemma_step_keeps_balance(
            SchedulerState::start(supply, limit).run(events.drop_last()),
            events.last(),
        );
    }
}

/// Every seed drawn is started at once and counted exactly once when its
/// trial ends. At every moment of a run the trials started are those of the
/// seeds drawn so far, and each is either in flight or counted as ended. A
/// completion is awaited only while a trial is in flight. Unless a trial
/// asks for the run to end, the run is finished only when the supply has
/// ended and every trial started was counted, which for a finite supply is
/// one trial for each of its seeds.
pub proof fn lemma_every_seed_is_counted_once(
    supply: SeedSupply,
    limit: nat,
    events: Seq<SchedulerEvent>,
)
    requires
        limit >= 1,
    ensures
        ({
            let state = SchedulerState::start(supply, limit).run(events);
            &&& state.supply == supply.after_draws(state.dispatched)
            &&& state.completed + state.in_flight == state.dispatched
            &&& state.decision() == Decision::AwaitCompletion ==> state.in_flight > 0
            &&& state.decision() == Decision::Finished ==> {
                &&& !state.supply.has_next()
                &&& state.in_flight == 0
                &&& state.completed == state.dispatched
                &&& supply.remaining() matches Some(seeds) ==> state.completed == seeds
            }
        }),
    decreases events.len(),
{
    lemma_in_flight_within_limit(supply, limit, events);
    if events.len() > 0 {
        let before = SchedulerState::start(supply, limit).run(events.drop_last());
        lemma_every_seed_is_counted_once(supply, limit, events.drop_last());
        if before.decision() == Decision::Dispatch {
            lemma_one_more_draw(supply, before.dispatched);
        }
    }
}

/// What is left to do in a run over a finite supply: two steps for each
/// seed still to come, a start and an end, and one step for each trial in
/// flight.
pub open spec fn work_left(state: SchedulerState) -> nat
    recommends
        state.supply.remaining() is Some,
{
    2 * state.supply.remaining().unwrap() + state.in_flight
}

/// A run over a finite supply comes to its end: while it is neither
/// finished nor aborted, the step that the scheduler asks for takes one off
/// the work that is left, and no step adds to it.
pub proof fn lemma_run_comes_to_an_end(state: SchedulerState, event: SchedulerEvent)
    requires
        state.balanced(),
        state.supply.remaining() is Some,
    ensures
        state.apply(event).supply.remaining() is Some,
        work_left(state.apply(event)) <= work_left(state),
        state.decision() == Decision::Dispatch ==> work_left(
            state.apply(SchedulerEvent::Poll),
        ) + 1 == work_left(state),
        state.decision() == Decision::AwaitCompletion ==> forall|verdict: Verdict|
            work_left(#[trigger] state.apply(SchedulerEvent::Completion(verdict))) + 1
                == work_left(state),
        work_left(state) == 0 && !state.aborted ==> state.decision() == Decision::Finished,
{
}

} // verus!
