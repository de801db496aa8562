//! The transaction cycle of one order.
//!
//! An order goes through six states: drafted, creation submitted, synchronized,
//! consumption submitted, synchronized again, observed. In each state but the
//! last exactly one action is due; the driver performs it against the ledger and
//! reports what came of it. Any failure ends the cycle. The cycle decides; it
//! performs nothing itself.

use vstd::prelude::*;

verus! {

/// How many orders the desk's driver sends, one cycle after the other.
pub const ITERATIONS: u32 = 1000;

/// What the driver does against the ledger.
#[derive(Clone, Copy, Debug, PartialEq, Eq, Structural)]
pub enum Action {
    /// Execute and submit the transaction that creates the note.
    SubmitCreate,
    /// Synchronize the local view of the ledger.
    Sync,
    /// Execute and submit the transaction that consumes the note against the book.
    SubmitConsume,
    /// Fetch the book account's storage and read it.
    ReadBook,
}

/// Why an action failed.
#[derive(Clone, Copy, Debug, PartialEq, Eq, Structural)]
pub enum Failure {
    /// The note or the request could not be built.
    Build,
    /// The ledger refused the transaction.
    Rejected,
    /// The ledger could not be reached.
    Transport,
}

/// Why a cycle ended early.
#[derive(Clone, Copy, Debug, PartialEq, Eq, Structural)]
pub enum AbortReason {
    /// The action that was due failed.
    Failed { action: Action, failure: Failure },
    /// The driver reported an action that was not due.
    OutOfTurn { due: Action, reported: Action },
}

/// What the driver reports.
#[derive(Clone, Copy, Debug, PartialEq, Eq, Structural)]
pub enum Event {
    /// The action was performed.
    Completed { action: Action },
    /// The action that was due failed.
    Failed { failure: Failure },
}

/// Where an order stands.
#[derive(Clone, Copy, Debug, PartialEq, Eq, Structural)]
pub enum CycleState {
    /// The note is built; nothing is on the ledger.
    Drafted,
    /// The creating transaction is submitted.
    CreateSubmitted,
    /// The ledger's view is synchronized: the note is known to exist.
    CreateSynced,
    /// The consuming transaction is submitted.
    ConsumeSubmitted,
    /// The ledger's view is synchronized: the book holds the order's effect.
    ConsumeSynced,
    /// The book was read and reported.
    Observed,
    /// The cycle ended early.
    Aborted { reason: AbortReason },
}

impl CycleState {
    /// The action that is due in this state; none once the cycle has ended.
    pub open spec fn due_spec(self) -> Option<Action> {
        match self {
            CycleState::Drafted => Some(Action::SubmitCreate),
            CycleState::CreateSubmitted => Some(Action::Sync),
            CycleState::CreateSynced => Some(Action::SubmitConsume),
            CycleState::ConsumeSubmitted => Some(Action::Sync),
            CycleState::ConsumeSynced => Some(Action::ReadBook),
            CycleState::Observed => None,
            CycleState::Aborted { .. } => None,
        }
    }

    /// The state that follows when the due action was performed.
    pub open spec fn successor_spec(self) -> CycleState {
        match self {
            CycleState::Drafted => CycleState::CreateSubmitted,
            CycleState::CreateSubmitted => CycleState::CreateSynced,
            CycleState::CreateSynced => CycleState::ConsumeSubmitted,
            CycleState::ConsumeSubmitted => CycleState::ConsumeSynced,
            CycleState::ConsumeSynced => CycleState::Observed,
            CycleState::Observed => CycleState::Observed,
            CycleState::Aborted { reason } => CycleState::Aborted { reason },
        }
    }

    /// How many actions were performed to reach this state, for a state
    /// in which one is due.
    pub open spec fn progress_spec(self) -> int {
        match self {
            CycleState::Drafted => 0,
            CycleState::CreateSubmitted => 1,
            CycleState::CreateSynced => 2,
            CycleState::ConsumeSubmitted => 3,
            CycleState::ConsumeSynced => 4,
            CycleState::Observed => 5,
            CycleState::Aborted { .. } => 6,
        }
    }

    /// The state after `event` was reported in this state. A state in which
    /// nothing is due stays as it is. Otherwise the cycle moves on if the due
    /// action was performed, and ends if it failed or another was reported.
    pub open spec fn step_spec(self, event: Event) -> CycleState {
        match self.due_spec() {
            None => self,
            Some(due) => match event {
                Event::Failed { failure } => CycleState::Aborted {
                    reason: AbortReason::Failed { action: due, failure },
                },
                Event::Completed { action } => if action == due {
                    self.successor_spec()
                } else {
                    CycleState::Aborted { reason: AbortReason::OutOfTurn { due, reported: action } }
                },
            },
        }
    }

    /// The state in which every cycle starts.
    pub fn start() -> (state: CycleState)
        ensures
            state == CycleState::Drafted,
    {
        CycleState::Drafted
    }

    /// The action that is due in this state; none once the cycle has ended.
    pub fn due(&self) -> (action: Option<Action>)
        ensures
            action == self.due_spec(),
    {
        match self {
            CycleState::Drafted => Some(Action::SubmitCreate),
            CycleState::CreateSubmitted => Some(Action::Sync),
            CycleState::CreateSynced => Some(Action::SubmitConsume),
            CycleState::ConsumeSubmitted => Some(Action::Sync),
            CycleState::ConsumeSynced => Some(Action::ReadBook),
            CycleState::Observed => None,
            CycleState::Aborted { .. } => None,
        }
    }

    /// Whether the cycle has ended, observed or aborted.
    pub fn is_finished(&self) -> (finished: bool)
        ensures
            finished == (self.due_spec() is None),
            finished == (*self == CycleState::Observed || *self is Aborted),
    {
        match self {
            CycleState::Observed => true,
            CycleState::Aborted { .. } => true,
            _ => false,
        }
    }

    /// The state after `event` was reported in this state.
    pub fn step(self, event: Event) -> (next: CycleState)
        ensures
            next == self.step_spec(event),
    {
        let due: Action = match self.due() {
            None => {
                return self;
            },
            Some(due) => due,
        };
        match event {
            Event::Failed { failure } => CycleState::Aborted {
                reason: AbortReason::Failed { action: due, failure },
            },
            Event::Completed { action } => {
                if action == due {
                    match self {
                        CycleState::Drafted => CycleState::CreateSubmitted,
                        CycleState::CreateSubmitted => CycleState::CreateSynced,
                        CycleState::CreateSynced => CycleState::ConsumeSubmitted,
                        CycleState::ConsumeSubmitted => CycleState::ConsumeSynced,
                        _ => CycleState::Observed,
                    }
                } else {
                    CycleState::Aborted { reason: AbortReason::OutOfTurn { due, reported: action } }
                }
            },
        }
    }
}

/// The state that a cycle is in after `events` were reported, one after the
/// other, from `start` on.
pub open spec fn run_spec(start: CycleState, events: Seq<Event>) -> CycleState
    decreases events.len(),
{
    if events.len() == 0 {
        start
    } else {
        run_spec(start, events.drop_last()).step_spec(events.last())
    }
}

/// The state of a new cycle before the event of index `i` is reported.
pub open spec fn state_before(events: Seq<Event>, i: int) -> CycleState {
    run_spec(CycleState::Drafted, events.take(i))
}

/// The action that the driver performed to report the event of index `i`, if
/// one was due then.
pub open spec fn performed(events: Seq<Event>, i: int) -> Option<Action> {
    state_before(events, i).due_spec()
}

/// Runs a new cycle through `events`.
pub fn run(events: &Vec<Event>) -> (state: CycleState)
    ensures
        state == run_spec(CycleState::Drafted, events@),
{
    let mut state: CycleState = CycleState::start();
    let mut i: usize = 0;
    while i < events.len()
        invariant
            i <= events@.len(),
            state == state_before(events@, i as int),
        decreases events@.len() - i,
    {
        assert(events@.take(i + 1).drop_last() =~= events@.take(i as int));
        state = state.step(events[i]);
        i = i + 1;
    }
    assert(events@.take(events@.len() as int) =~= events@);
    state
}

/// One step moves a cycle in which an action is due to the next state or ends it;
/// a cycle that has ended stays where it is.
pub proof fn lemma_step_moves_forward(state: CycleState, event: Event)
    ensures
        state.due_spec() is None ==> state.step_spec(event) == state,
        state.due_spec() is Some ==> state.step_spec(event) == state.successor_spec()
            || state.step_spec(event) is Aborted,
        state.step_spec(event).due_spec() is Some ==> state.due_spec() == Some(
            Action::SubmitCreate,
        ) || state.due_spec() == Some(Action::Sync) || state.due_spec() == Some(
            Action::SubmitConsume,
        ),
        state.step_spec(event).due_spec() is Some ==> state.step_spec(event).progress_spec()
            == state.progress_spec() + 1 && event == (Event::Completed {
            action: state.due_spec().unwrap(),
        }),
{
}

/// While an action is due, the cycle has performed as many actions as events
/// were reported, and every one of those events completed the action due.
pub proof fn lemma_progress_counts_events(events: Seq<Event>, i: int)
    requires
        0 <= i <= events.len(),
        performed(events, i) is Some,
    ensures
        state_before(events, i).progress_spec() == i,
        forall|k: int|
            0 <= k < i ==> performed(events, k) is Some && #[trigger] events[k] == (
            Event::Completed { action: performed(events, k).unwrap() }),
    decreases i,
{
    if i > 0 {
        let earlier = state_before(events, i - 1);
        lemma_unfold(events, i - 1);
        lemma_step_moves_forward(earlier, events[i - 1]);
        lemma_progress_counts_events(events, i - 1);
    }
}

/// Consumption waits for synchronization: whenever the driver submits the
/// consuming transaction, exactly two events came before, the first completing
/// the creation and the second completing a synchronization.
pub proof fn lemma_consume_follows_sync(events: Seq<Event>, i: int)
    requires
        0 <= i <= events.len(),
        performed(events, i) == Some(Action::SubmitConsume),
    ensures
        i == 2,
        events[0] == (Event::Completed { action: Action::SubmitCreate }),
        events[1] == (Event::Completed { action: Action::Sync }),
        state_before(events, i) == CycleState::CreateSynced,
{
    lemma_progress_counts_events(events, i);
    lemma_progress_counts_events(events, 1);
    lemma_progress_counts_events(events, 0);
}

/// A note is consumed at most once: in one cycle the driver never submits the
/// consuming transaction twice, whatever is reported to it.
pub proof fn lemma_consume_at_most_once(events: Seq<Event>, i: int, j: int)
    requires
        0 <= i <= events.len(),
        0 <= j <= events.len(),
        performed(events, i) == Some(Action::SubmitConsume),
        performed(events, j) == Some(Action::SubmitConsume),
    ensures
        i == j,
{
    lemma_consume_follows_sync(events, i);
    lemma_consume_follows_sync(events, j);
}

/// The state before the event of index `k + 1` is one step from the state
/// before the event of index `k`.
proof fn lemma_unfold(events: Seq<Event>, k: int)
    requires
        0 <= k < events.len(),
    ensures
        state_before(events, k + 1) == state_before(events, k).step_spec(events[k]),
{
    assert(events.take(k + 1).drop_last() =~= events.take(k));
    assert(events.take(k + 1).last() == events[k]);
}

/// A cycle is observed only after all five actions were performed in order:
/// create, synchronize, consume, synchronize, read.
pub proof fn lemma_observed_after_full_cycle(events: Seq<Event>, i: int)
    requires
        0 <= i <= events.len(),
        state_before(events, i) == CycleState::Observed,
    ensures
        i >= 5,
        events[0] == (Event::Completed { action: Action::SubmitCreate }),
        events[1] == (Event::Completed { action: Action::Sync }),
        events[2] == (Event::Completed { action: Action::SubmitConsume }),
        events[3] == (Event::Completed { action: Action::Sync }),
        events[4] == (Event::Completed { action: Action::ReadBook }),
        state_before(events, 5) == CycleState::Observed,
    decreases i,
{
    assert(events.take(0) =~= Seq::<Event>::empty());
    assert(i > 0);
    let earlier = state_before(events, i - 1);
    lemma_unfold(events, i - 1);
    if earlier == CycleState::Observed {
        lemma_observed_after_full_cycle(events, i - 1);
    } else {
        assert(earlier == CycleState::ConsumeSynced);
        lemma_progress_counts_events(events, i - 1);
        lemma_progress_counts_events(events, 3);
        lemma_progress_counts_events(events, 2);
        lemma_progress_counts_events(events, 1);
        lemma_progress_counts_events(events, 0);
    }
}

} // verus!
