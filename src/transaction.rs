use vstd::prelude::*;

use crate::error::AdapterError;
use crate::sql::{Query, RowCheck};

verus! {

/// What the caller reports after carrying out the previous action.
#[derive(Clone, Copy, Debug, PartialEq, Eq, Structural)]
pub enum TxEvent {
    /// The transaction was opened.
    Opened,
    /// The requested statement ran and affected this many rows.
    Executed(u64),
    /// The store failed the last request (opening, a statement or the commit).
    Failed(AdapterError),
    /// The transaction was committed.
    Committed,
}

/// What the caller must do next.
#[derive(Clone, Copy, Debug, PartialEq, Eq, Structural)]
pub enum TxAction {
    /// Run the statement at this index inside the open transaction.
    Execute(usize),
    /// Commit the transaction.
    Commit,
    /// Stop: the batch succeeded.
    Done,
    /// Stop with this error, rolling back the transaction if it is open.
    Abort(AdapterError),
}

/// Where a batch stands.
#[derive(Clone, Copy, Debug, PartialEq, Eq, Structural)]
pub enum TxPhase {
    /// Waiting for the transaction to open.
    Opening,
    /// Waiting for the outcome of the statement at this index.
    Running(usize),
    /// Waiting for the commit.
    Committing,
    /// Done: every statement passed its check and the commit went through.
    Succeeded,
    /// Done: stopped with this error, nothing committed.
    Failed(AdapterError),
}

/// The phase and action that follow statement `i`: the next statement, or the commit.
pub open spec fn advance_to(checks: Seq<RowCheck>, i: int) -> (TxPhase, TxAction) {
    if i < checks.len() {
        (TxPhase::Running(i as usize), TxAction::Execute(i as usize))
    } else {
        (TxPhase::Committing, TxAction::Commit)
    }
}

/// Stops with `e`.
pub open spec fn fail_with(e: AdapterError) -> (TxPhase, TxAction) {
    (TxPhase::Failed(e), TxAction::Abort(e))
}

/// One step of the all-or-nothing protocol over statements with the given checks.
pub open spec fn tx_step(checks: Seq<RowCheck>, phase: TxPhase, event: TxEvent) -> (
    TxPhase,
    TxAction,
) {
    match phase {
        TxPhase::Opening => match event {
            TxEvent::Opened => advance_to(checks, 0),
            TxEvent::Failed(e) => fail_with(e),
            _ => fail_with(AdapterError::StoreProtocol),
        },
        TxPhase::Running(i) => match event {
            TxEvent::Executed(n) => if i < checks.len() && checks[i as int].holds(n as nat) {
                advance_to(checks, i + 1)
            } else {
                fail_with(AdapterError::RowNotFound)
            },
            TxEvent::Failed(e) => fail_with(e),
            _ => fail_with(AdapterError::StoreProtocol),
        },
        TxPhase::Committing => match event {
            TxEvent::Committed => (TxPhase::Succeeded, TxAction::Done),
            TxEvent::Failed(e) => fail_with(e),
            _ => fail_with(AdapterError::StoreProtocol),
        },
        TxPhase::Succeeded => (TxPhase::Succeeded, TxAction::Done),
        TxPhase::Failed(e) => fail_with(e),
    }
}

/// The phase reached and the actions issued after a run of events from the start.
pub open spec fn tx_run(checks: Seq<RowCheck>, events: Seq<TxEvent>) -> (TxPhase, Seq<TxAction>)
    decreases events.len(),
{
    if events.len() == 0 {
        (TxPhase::Opening, Seq::empty())
    } else {
        let prev = tx_run(checks, events.drop_last());
        let next = tx_step(checks, prev.0, events.last());
        (next.0, prev.1.push(next.1))
    }
}

/// The events open the transaction and then report, for each of the first `k`
/// statements in order, a row count that its check accepts.
pub open spec fn accepted_through(checks: Seq<RowCheck>, events: Seq<TxEvent>, k: int) -> bool {
    &&& k <= checks.len()
    &&& events.len() > k
    &&& events[0] == TxEvent::Opened
    &&& forall|j: int|
        0 <= j < k ==> {
            &&& (#[trigger] events[j + 1]) is Executed
            &&& checks[j].holds(events[j + 1]->Executed_0 as nat)
        }
}

/// What a run of events has established, phase by phase.
pub open spec fn run_facts(checks: Seq<RowCheck>, events: Seq<TxEvent>, phase: TxPhase) -> bool {
    let n = checks.len() as int;
    match phase {
        TxPhase::Opening => events.len() == 0,
        TxPhase::Running(k) => k < n && events.len() == k + 1 && accepted_through(
            checks,
            events,
            k as int,
        ),
        TxPhase::Committing => events.len() == n + 1 && accepted_through(checks, events, n),
        TxPhase::Succeeded => events.len() >= n + 2 && accepted_through(checks, events, n)
            && events[n + 1] == TxEvent::Committed,
        TxPhase::Failed(_) => true,
    }
}

proof fn lemma_accepted_extends(checks: Seq<RowCheck>, events: Seq<TxEvent>, k: int)
    requires
        0 <= k,
        events.len() > 0,
        accepted_through(checks, events.drop_last(), k),
    ensures
        accepted_through(checks, events, k),
{
    assert(events.drop_last()[0] == events[0]);
    assert forall|j: int| 0 <= j < k implies {
        &&& (#[trigger] events[j + 1]) is Executed
        &&& checks[j].holds(events[j + 1]->Executed_0 as nat)
    } by {
        assert(events.drop_last()[j + 1] == events[j + 1]);
    }
}

/// A batch commits only after its transaction opened and every statement, in order,
/// reported a row count that its check accepts; it reports success only after that
/// commit went through. So when any statement fails or affects the wrong number of
/// rows, nothing of the batch is committed.
pub proof fn lemma_commit_only_after_every_statement_passed(
    checks: Seq<RowCheck>,
    events: Seq<TxEvent>,
)
    requires
        checks.len() <= usize::MAX,
    ensures
        tx_run(checks, events).1.len() == events.len(),
        run_facts(checks, events, tx_run(checks, events).0),
        forall|m: int|
            0 <= m < events.len() && #[trigger] tx_run(checks, events).1[m] == TxAction::Commit
                ==> m == checks.len() && accepted_through(checks, events, checks.len() as int),
        forall|m: int|
            0 <= m < events.len() && #[trigger] tx_run(checks, events).1[m] == TxAction::Done ==> m
                > checks.len() && accepted_through(checks, events, checks.len() as int)
                && events[checks.len() + 1int] == TxEvent::Committed,
    decreases events.len(),
{
    if events.len() > 0 {
        let prev_events = events.drop_last();
        lemma_commit_only_after_every_statement_passed(checks, prev_events);
        let prev = tx_run(checks, prev_events);
        let ev = events.last();
        let n = checks.len() as int;
        assert(prev_events =~= events.subrange(0, events.len() - 1));
        if prev.0 is Running || prev.0 is Committing || prev.0 is Succeeded {
            let k: int = match prev.0 {
                TxPhase::Running(k) => k as int,
                _ => n,
            };
            lemma_accepted_extends(checks, events, k);
        }
        if prev.0 is Succeeded {
            assert(events[n + 1] == prev_events[n + 1]);
        }
        if prev.0 is Opening {
            assert(events[0] == ev);
        }
        if prev.0 is Committing {
            assert(events[n + 1] == ev);
        }
        if prev.0 is Running {
            let k = prev.0->Running_0 as int;
            if ev is Executed && k < n && checks[k].holds(ev->Executed_0 as nat) {
                assert(events[k + 1] == ev);
                assert(accepted_through(checks, events, k + 1));
            }
        }
        let acts = tx_run(checks, events).1;
        assert forall|m: int| 0 <= m < events.len() && #[trigger] acts[m] == TxAction::Commit implies m
            == n && accepted_through(checks, events, n) by {
            if m < events.len() - 1 {
                assert(acts[m] == prev.1[m]);
                lemma_accepted_extends(checks, events, n);
            }
        }
        assert forall|m: int| 0 <= m < events.len() && #[trigger] acts[m] == TxAction::Done implies m
            > n && accepted_through(checks, events, n) && events[n + 1] == TxEvent::Committed by {
            if m < events.len() - 1 {
                assert(acts[m] == prev.1[m]);
                lemma_accepted_extends(checks, events, n);
                assert(events[n + 1] == prev_events[n + 1]);
            }
        }
    }
}

/// A batch of statements run inside one transaction, all or nothing.
pub struct Transaction {
    queries: Vec<Query>,
    phase: TxPhase,
}

impl Transaction {
    /// The checks of the statements, in order.
    pub open spec fn checks(&self) -> Seq<RowCheck> {
        self.statements().map_values(|q: Query| q.check)
    }

    pub closed spec fn statements(&self) -> Seq<Query> {
        self.queries@
    }

    pub closed spec fn phase(&self) -> TxPhase {
        self.phase
    }

    /// A batch over `queries` that waits for its transaction to open.
    pub fn new(queries: Vec<Query>) -> (r: Transaction)
        ensures
            r.statements() == queries@,
            r.phase() == TxPhase::Opening,
    {
        Transaction { queries, phase: TxPhase::Opening }
    }

    /// Number of statements in the batch.
    pub fn len(&self) -> (r: usize)
        ensures
            r == self.statements().len(),
    {
        self.queries.len()
    }

    /// The statement at index `i`.
    pub fn query(&self, i: usize) -> (r: &Query)
        requires
            i < self.statements().len(),
        ensures
            *r == self.statements()[i as int],
    {
        &self.queries[i]
    }

    /// Where the batch stands.
    pub fn current_phase(&self) -> (r: TxPhase)
        ensures
            r == self.phase(),
    {
        self.phase
    }

    fn advance_from(&self, i: usize) -> (r: (TxPhase, TxAction))
        requires
            i <= self.statements().len(),
        ensures
            r == advance_to(self.checks(), i as int),
    {
        if i < self.queries.len() {
            (TxPhase::Running(i), TxAction::Execute(i))
        } else {
            (TxPhase::Committing, TxAction::Commit)
        }
    }

    /// Takes the outcome of the last action and says what to do next.
    pub fn advance(&mut self, event: TxEvent) -> (r: TxAction)
        ensures
            final(self).statements() == old(self).statements(),
            (final(self).phase(), r) == tx_step(old(self).checks(), old(self).phase(), event),
    {
        let (phase, action) = match self.phase {
            TxPhase::Opening => match event {
                TxEvent::Opened => self.advance_from(0),
                TxEvent::Failed(e) => (TxPhase::Failed(e), TxAction::Abort(e)),
                _ => (
                    TxPhase::Failed(AdapterError::StoreProtocol),
                    TxAction::Abort(AdapterError::StoreProtocol),
                ),
            },
            TxPhase::Running(i) => match event {
                TxEvent::Executed(n) => {
                    if i < self.queries.len() && self.queries[i].accepts(n) {
                        self.advance_from(i + 1)
                    } else {
                        (
                            TxPhase::Failed(AdapterError::RowNotFound),
                            TxAction::Abort(AdapterError::RowNotFound),
                        )
                    }
                },
                TxEvent::Failed(e) => (TxPhase::Failed(e), TxAction::Abort(e)),
                _ => (
                    TxPhase::Failed(AdapterError::StoreProtocol),
                    TxAction::Abort(AdapterError::StoreProtocol),
                ),
            },
            TxPhase::Committing => match event {
                TxEvent::Committed => (TxPhase::Succeeded, TxAction::Done),
                TxEvent::Failed(e) => (TxPhase::Failed(e), TxAction::Abort(e)),
                _ => (
                    TxPhase::Failed(AdapterError::StoreProtocol),
                    TxAction::Abort(AdapterError::StoreProtocol),
                ),
            },
            TxPhase::Succeeded => (TxPhase::Succeeded, TxAction::Done),
            TxPhase::Failed(e) => (TxPhase::Failed(e), TxAction::Abort(e)),
        };
        self.phase = phase;
        action
    }
}

} // verus!
