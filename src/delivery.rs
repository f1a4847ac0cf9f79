//! The manager together with its queue file and the remote service, as one
//! system: what the loop does for each action, and what follows of every run
//! whatever the service answers.
use vstd::prelude::*;

use crate::commit::Commit;
use crate::sync::{initial_model, transition, EventModel, Phase, SyncAction, SyncModel, IDLE_SECS};

verus! {

/// The whole system between two actions.
pub struct World {
    /// What the queue file holds.
    pub file: Seq<Commit>,
    /// The manager's state.
    pub manager: SyncModel,
    /// The action the manager asked for last, not yet performed.
    pub pending: SyncAction,
    /// Each submission made so far, with the service's answer.
    pub attempts: Seq<(Commit, bool)>,
    /// The commits removed from the file so far, in order.
    pub removed: Seq<Commit>,
}

/// The system once the loop has read `file` for the first time.
pub open spec fn start(file: Seq<Commit>) -> World {
    let (m, a) = transition(initial_model(), EventModel::Loaded(file));
    World { file, manager: m, pending: a, attempts: Seq::empty(), removed: Seq::empty() }
}

/// The loop performs the pending action, reports its outcome, and the manager
/// decides the next. `answer` is what the service says, where it is asked.
/// Removing the head reads, pops and saves the file, as `Queue::pop_front`
/// does.
pub open spec fn world_step(w: World, answer: bool) -> World {
    match w.pending {
        SyncAction::Sleep(_) => {
            let (m, a) = transition(w.manager, EventModel::Loaded(w.file));
            World { manager: m, pending: a, ..w }
        },
        SyncAction::Probe => {
            let (m, a) = transition(w.manager, EventModel::Probed(answer));
            World { manager: m, pending: a, ..w }
        },
        SyncAction::Submit(c) => {
            let (m, a) = transition(w.manager, EventModel::Submitted(answer));
            World { manager: m, pending: a, attempts: w.attempts.push((c, answer)), ..w }
        },
        SyncAction::Acknowledge => if w.file.len() > 0 {
            let rest = w.file.drop_first();
            let (m, a) = transition(w.manager, EventModel::Loaded(rest));
            World { file: rest, manager: m, pending: a, removed: w.removed.push(w.file[0]), ..w }
        } else {
            let (m, a) = transition(w.manager, EventModel::Loaded(w.file));
            World { manager: m, pending: a, ..w }
        },
    }
}

/// The system after one step for each of `answers`, from a first read of
/// `file`.
pub open spec fn run(file: Seq<Commit>, answers: Seq<bool>) -> World
    decreases answers.len(),
{
    if answers.len() == 0 {
        start(file)
    } else {
        world_step(run(file, answers.drop_last()), answers.last())
    }
}

/// How many of `attempts` the service accepted.
pub open spec fn accepted(attempts: Seq<(Commit, bool)>) -> nat
    decreases attempts.len(),
{
    if attempts.len() == 0 {
        0
    } else {
        accepted(attempts.drop_last()) + if attempts.last().1 {
            1nat
        } else {
            0nat
        }
    }
}

/// What holds of every reachable system that started from `file0`.
pub open spec fn consistent(w: World, file0: Seq<Commit>) -> bool {
    &&& file0 == w.removed + w.file
    &&& forall|j: int|
        0 <= j < w.attempts.len() ==> #[trigger] w.attempts[j].0 == file0[accepted(
            w.attempts.take(j),
        ) as int]
    &&& if w.pending is Acknowledge {
        &&& accepted(w.attempts) == w.removed.len() + 1
        &&& w.file.len() > 0
        &&& w.manager.phase == Phase::Waiting
    } else {
        accepted(w.attempts) == w.removed.len()
    }
    &&& w.manager.phase != Phase::Waiting ==> w.manager.queue == w.file && w.file.len() > 0
    &&& w.pending is Probe ==> w.manager.phase == Phase::Probing
    &&& w.pending matches SyncAction::Submit(c) ==> w.manager.phase == Phase::Delivering && c
        == w.file[0]
    &&& w.pending is Sleep ==> w.manager.phase == Phase::Waiting
}

proof fn lemma_accepted_push(attempts: Seq<(Commit, bool)>, a: (Commit, bool))
    ensures
        accepted(attempts.push(a)) == accepted(attempts) + if a.1 {
            1nat
        } else {
            0nat
        },
{
    assert(attempts.push(a).drop_last() =~= attempts);
}

proof fn lemma_step_consistent(w: World, answer: bool, file0: Seq<Commit>)
    requires
        consistent(w, file0),
    ensures
        consistent(world_step(w, answer), file0),
{
    let w2 = world_step(w, answer);
    match w.pending {
        SyncAction::Submit(c) => {
            lemma_accepted_push(w.attempts, (c, answer));
            assert(w.file[0] == file0[w.removed.len() as int]);
            assert forall|j: int| 0 <= j < w2.attempts.len() implies #[trigger] w2.attempts[j].0
                == file0[accepted(w2.attempts.take(j)) as int] by {
                if j < w.attempts.len() {
                    assert(w2.attempts.take(j) =~= w.attempts.take(j));
                } else {
                    assert(w2.attempts.take(j) =~= w.attempts);
                }
            }
        },
        SyncAction::Acknowledge => {
            assert(file0 == w2.removed + w2.file) by {
                assert(w.removed.push(w.file[0]) + w.file.drop_first() =~= w.removed + w.file);
            }
        },
        _ => {},
    }
}

proof fn lemma_run_consistent(file0: Seq<Commit>, answers: Seq<bool>)
    ensures
        consistent(run(file0, answers), file0),
    decreases answers.len(),
{
    if answers.len() == 0 {
        assert(file0 == Seq::<Commit>::empty() + file0);
    } else {
        lemma_run_consistent(file0, answers.drop_last());
        lemma_step_consistent(run(file0, answers.drop_last()), answers.last(), file0);
    }
}

/// Delivery follows the queue's order, at least once, whatever the service
/// answers: commits leave the file only from its head, in order, none lost;
/// each submission names the oldest commit whose delivery is not yet
/// confirmed, so a refused commit is submitted again and no later commit is
/// tried before it is accepted; and a commit is removed only after the
/// service accepted it.
pub proof fn delivery_in_order(file0: Seq<Commit>, answers: Seq<bool>)
    ensures
        file0 == run(file0, answers).removed + run(file0, answers).file,
        forall|j: int|
            0 <= j < run(file0, answers).attempts.len() ==> #[trigger] run(
                file0,
                answers,
            ).attempts[j].0 == file0[accepted(run(file0, answers).attempts.take(j)) as int],
        run(file0, answers).removed.len() <= accepted(run(file0, answers).attempts),
{
    lemma_run_consistent(file0, answers);
}

/// Where a run with an always reachable, always accepting service stands
/// after `k` commits were delivered.
pub open spec fn drained(w: World, file0: Seq<Commit>, k: int) -> bool {
    &&& w.file == file0.skip(k)
    &&& w.removed == file0.take(k)
    &&& w.attempts == file0.take(k).map_values(|c: Commit| (c, true))
    &&& w.manager.queue == file0.skip(k)
    &&& if k < file0.len() {
        w.pending is Probe && w.manager.phase == Phase::Probing
    } else {
        w.pending == SyncAction::Sleep(IDLE_SECS) && w.manager.phase == Phase::Waiting
    }
}

proof fn lemma_drained(file0: Seq<Commit>, answers: Seq<bool>, k: int)
    requires
        0 <= k <= file0.len(),
        answers.len() == 3 * k,
        forall|i: int| 0 <= i < answers.len() ==> answers[i],
    ensures
        drained(run(file0, answers), file0, k),
    decreases k,
{
    if k == 0 {
        assert(file0.skip(0) =~= file0);
        assert(file0.take(0) =~= Seq::<Commit>::empty());
        assert(file0.take(0).map_values(|c: Commit| (c, true)) =~= Seq::<(Commit, bool)>::empty());
    } else {
        let a1 = answers.drop_last();
        let a2 = a1.drop_last();
        let a3 = a2.drop_last();
        lemma_drained(file0, a3, k - 1);
        let w0 = run(file0, a3);
        assert(run(file0, a2) == world_step(w0, true));
        assert(run(file0, a1) == world_step(run(file0, a2), true));
        assert(run(file0, answers) == world_step(run(file0, a1), true));
        let rest = file0.skip(k - 1);
        assert(rest[0] == file0[k - 1]);
        assert(rest.drop_first() =~= file0.skip(k));
        assert(file0.take(k - 1).push(file0[k - 1]) =~= file0.take(k));
        assert(file0.take(k - 1).map_values(|c: Commit| (c, true)).push((file0[k - 1], true))
            =~= file0.take(k).map_values(|c: Commit| (c, true)));
    }
}

/// A service that is always reachable and accepts every commit sees each
/// commit submitted exactly once, in the order they were enqueued, and after
/// three steps per commit the queue file is empty.
pub proof fn reliable_service_drains_queue(file0: Seq<Commit>, answers: Seq<bool>)
    requires
        answers.len() == 3 * file0.len(),
        forall|i: int| 0 <= i < answers.len() ==> answers[i],
    ensures
        run(file0, answers).attempts == file0.map_values(|c: Commit| (c, true)),
        run(file0, answers).removed == file0,
        run(file0, answers).file == Seq::<Commit>::empty(),
{
    lemma_drained(file0, answers, file0.len() as int);
    assert(file0.take(file0.len() as int) =~= file0);
    assert(file0.skip(file0.len() as int) =~= Seq::<Commit>::empty());
}

} // verus!
