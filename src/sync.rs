//! The decisions of the background loop that drains the queue to the remote
//! service. The loop itself sleeps, probes, submits and touches the file; it
//! hands each outcome to [`SyncManager::step`] and performs the action that
//! comes back.
use vstd::prelude::*;

use crate::commit::Commit;
use crate::queue::Queue;

verus! {

/// Seconds to wait before looking at an empty queue again.
pub const IDLE_SECS: u64 = 1;

/// Seconds to wait after an unreachable service or a failed submission.
pub const BACKOFF_SECS: u64 = 5;

/// Which answer the manager waits for.
#[derive(Clone, Copy, Debug, PartialEq, Eq)]
pub enum Phase {
    /// The queue as read from its file.
    Waiting,
    /// Whether the service is reachable.
    Probing,
    /// Whether the head commit was accepted.
    Delivering,
}

/// What the loop reports to the manager.
#[derive(Debug)]
pub enum SyncEvent {
    /// The queue was read back from its file.
    Loaded(Queue),
    /// The service was probed: reachable or not.
    Probed(bool),
    /// The head commit was submitted: accepted or not.
    Submitted(bool),
}

/// A [`SyncEvent`] as a value.
pub enum EventModel {
    Loaded(Seq<Commit>),
    Probed(bool),
    Submitted(bool),
}

impl View for SyncEvent {
    type V = EventModel;

    open spec fn view(&self) -> EventModel {
        match self {
            SyncEvent::Loaded(q) => EventModel::Loaded(q@),
            SyncEvent::Probed(up) => EventModel::Probed(*up),
            SyncEvent::Submitted(ok) => EventModel::Submitted(*ok),
        }
    }
}

/// What the manager asks the loop to do next.
#[derive(Debug)]
pub enum SyncAction {
    /// Sleep this many seconds, then read the queue back from its file.
    Sleep(u64),
    /// Probe whether the service is reachable.
    Probe,
    /// Submit this commit, the head of the queue.
    Submit(Commit),
    /// The head commit was delivered: remove it from the queue file (read,
    /// pop, save), then report the queue that remains.
    Acknowledge,
}

/// The manager's state: the queue as last read and the answer it awaits.
pub struct SyncManager {
    pub queue: Queue,
    pub phase: Phase,
}

/// A [`SyncManager`] as a value.
pub struct SyncModel {
    pub queue: Seq<Commit>,
    pub phase: Phase,
}

impl View for SyncManager {
    type V = SyncModel;

    open spec fn view(&self) -> SyncModel {
        SyncModel { queue: self.queue@, phase: self.phase }
    }
}

/// Start the cycle over: wait briefly, then read the file again.
pub open spec fn restart(m: SyncModel) -> (SyncModel, SyncAction) {
    (SyncModel { queue: m.queue, phase: Phase::Waiting }, SyncAction::Sleep(IDLE_SECS))
}

/// The next state and action for an event. An empty queue waits; a
/// non-empty one is probed first; a reachable service gets the head commit;
/// only an accepted submission removes it. Any failure backs off and keeps
/// the same head. An event that answers no pending request starts over.
pub open spec fn transition(m: SyncModel, e: EventModel) -> (SyncModel, SyncAction) {
    match e {
        EventModel::Loaded(q) => if q.len() == 0 {
            (SyncModel { queue: q, phase: Phase::Waiting }, SyncAction::Sleep(IDLE_SECS))
        } else {
            (SyncModel { queue: q, phase: Phase::Probing }, SyncAction::Probe)
        },
        EventModel::Probed(up) => if m.phase == Phase::Probing && m.queue.len() > 0 {
            if up {
                (
                    SyncModel { queue: m.queue, phase: Phase::Delivering },
                    SyncAction::Submit(m.queue[0]),
                )
            } else {
                (SyncModel { queue: m.queue, phase: Phase::Waiting }, SyncAction::Sleep(BACKOFF_SECS))
            }
        } else {
            restart(m)
        },
        EventModel::Submitted(ok) => if m.phase == Phase::Delivering && m.queue.len() > 0 {
            if ok {
                (
                    SyncModel { queue: m.queue.drop_first(), phase: Phase::Waiting },
                    SyncAction::Acknowledge,
                )
            } else {
                (SyncModel { queue: m.queue, phase: Phase::Waiting }, SyncAction::Sleep(BACKOFF_SECS))
            }
        } else {
            restart(m)
        },
    }
}

impl SyncManager {
    /// A manager that has not read the queue yet: the loop starts by reading
    /// the file and reporting [`SyncEvent::Loaded`].
    pub fn new() -> (r: SyncManager)
        ensures
            r@ == initial_model(),
    {
        SyncManager { queue: Queue::new(), phase: Phase::Waiting }
    }

    /// Takes the outcome of the last action and decides the next one.
    pub fn step(&mut self, event: SyncEvent) -> (a: SyncAction)
        ensures
            (final(self)@, a) == transition(old(self)@, event@),
    {
        match event {
            SyncEvent::Loaded(q) => {
                let empty = q.is_empty();
                self.queue = q;
                if empty {
                    self.phase = Phase::Waiting;
                    SyncAction::Sleep(IDLE_SECS)
                } else {
                    self.phase = Phase::Probing;
                    SyncAction::Probe
                }
            },
            SyncEvent::Probed(up) => {
                let probing = match self.phase {
                    Phase::Probing => true,
                    _ => false,
                };
                match self.queue.peek() {
                    Some(head) if probing => {
                        if up {
                            let c = head.duplicate();
                            self.phase = Phase::Delivering;
                            SyncAction::Submit(c)
                        } else {
                            self.phase = Phase::Waiting;
                            SyncAction::Sleep(BACKOFF_SECS)
                        }
                    },
                    _ => {
                        self.phase = Phase::Waiting;
                        SyncAction::Sleep(IDLE_SECS)
                    },
                }
            },
            SyncEvent::Submitted(ok) => {
                let delivering = match self.phase {
                    Phase::Delivering => true,
                    _ => false,
                };
                if delivering && !self.queue.is_empty() {
                    self.phase = Phase::Waiting;
                    if ok {
                        let _ = self.queue.pop_front();
                        SyncAction::Acknowledge
                    } else {
                        SyncAction::Sleep(BACKOFF_SECS)
                    }
                } else {
                    self.phase = Phase::Waiting;
                    SyncAction::Sleep(IDLE_SECS)
                }
            },
        }
    }
}

/// The state of [`SyncManager::new`].
pub open spec fn initial_model() -> SyncModel {
    SyncModel { queue: Seq::empty(), phase: Phase::Waiting }
}

} // verus!
