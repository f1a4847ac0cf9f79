use sparkwms_core::commit::Commit;
use sparkwms_core::queue::{enqueue_commit, queue_len, CorruptPolicy, Queue, QueueFile};
use sparkwms_core::sync::{Phase, SyncAction, SyncEvent, SyncManager, BACKOFF_SECS, IDLE_SECS};

fn commit(device: &str, location: &str, delta: i32, item_id: i16) -> Commit {
    Commit {
        device_id: device.to_string(),
        location: location.to_string(),
        delta,
        item_id,
    }
}

fn copy(q: &Queue) -> Queue {
    Queue {
        items: q.items.clone(),
    }
}

/// A stand-in for the remote service: it records every submission and
/// refuses a commit (by item id) as many times as `refusals` says.
struct MockGate {
    reachable: bool,
    refusals: Vec<(i16, usize)>,
    submitted: Vec<Commit>,
    sleeps: Vec<u64>,
}

impl MockGate {
    fn new() -> MockGate {
        MockGate {
            reachable: true,
            refusals: Vec::new(),
            submitted: Vec::new(),
            sleeps: Vec::new(),
        }
    }

    fn submit(&mut self, c: Commit) -> bool {
        let id = c.item_id;
        self.submitted.push(c);
        for entry in self.refusals.iter_mut() {
            if entry.0 == id && entry.1 > 0 {
                entry.1 -= 1;
                return false;
            }
        }
        true
    }
}

/// Plays the loop for `steps` actions against an in-memory queue file.
fn drive(file: &mut Queue, gate: &mut MockGate, steps: usize) {
    let mut manager = SyncManager::new();
    let mut action = manager.step(SyncEvent::Loaded(copy(file)));
    for _ in 0..steps {
        let event = match action {
            SyncAction::Sleep(secs) => {
                gate.sleeps.push(secs);
                SyncEvent::Loaded(copy(file))
            }
            SyncAction::Probe => SyncEvent::Probed(gate.reachable),
            SyncAction::Submit(c) => SyncEvent::Submitted(gate.submit(c)),
            SyncAction::Acknowledge => {
                assert!(file.pop_front().is_some());
                SyncEvent::Loaded(copy(file))
            }
        };
        action = manager.step(event);
    }
}

fn queue_of(n: i16) -> Queue {
    let mut q = Queue::new();
    for i in 0..n {
        q.enqueue(commit("dev", "L", i as i32, i));
    }
    q
}

#[test]
fn enqueue_then_sync_scenario() {
    let q = enqueue_commit(QueueFile::Absent, commit("dev-1", "A1", -3, 42), CorruptPolicy::StartEmpty).unwrap();
    let q = enqueue_commit(QueueFile::Valid(q), commit("dev-1", "A1", 5, 42), CorruptPolicy::StartEmpty).unwrap();
    assert_eq!(queue_len(QueueFile::Valid(copy(&q)), CorruptPolicy::Reject).unwrap(), 2);

    let mut file = q;
    let mut gate = MockGate::new();
    drive(&mut file, &mut gate, 10);
    assert_eq!(queue_len(QueueFile::Valid(copy(&file)), CorruptPolicy::Reject).unwrap(), 0);
    assert_eq!(
        gate.submitted,
        vec![commit("dev-1", "A1", -3, 42), commit("dev-1", "A1", 5, 42)]
    );
}

#[test]
fn reliable_gate_sees_fifo_order_once_each() {
    let mut file = queue_of(20);
    let expected: Vec<Commit> = file.items.iter().cloned().collect();
    let mut gate = MockGate::new();
    drive(&mut file, &mut gate, 3 * 20);
    assert!(file.is_empty());
    assert_eq!(gate.submitted, expected);
    drive(&mut file, &mut gate, 10);
    assert_eq!(gate.submitted.len(), 20);
}

#[test]
fn refused_commit_is_retried_before_later_ones() {
    let mut file = queue_of(4);
    let mut gate = MockGate::new();
    gate.refusals.push((2, 3));
    drive(&mut file, &mut gate, 100);
    assert!(file.is_empty());
    let ids: Vec<i16> = gate.submitted.iter().map(|c| c.item_id).collect();
    assert_eq!(ids, vec![0, 1, 2, 2, 2, 2, 3]);
    assert_eq!(gate.sleeps.iter().filter(|s| **s == BACKOFF_SECS).count(), 3);
}

#[test]
fn refused_commit_stays_at_head_until_accepted() {
    let mut file = queue_of(3);
    let mut gate = MockGate::new();
    gate.refusals.push((0, 2));
    // probe, submit (refused), sleep, reload, probe, submit (refused)
    drive(&mut file, &mut gate, 6);
    assert_eq!(file.len(), 3);
    assert_eq!(gate.submitted.len(), 2);
    assert!(gate.submitted.iter().all(|c| c.item_id == 0));
}

#[test]
fn unreachable_service_backs_off_and_keeps_queue() {
    let mut file = queue_of(2);
    let mut gate = MockGate::new();
    gate.reachable = false;
    drive(&mut file, &mut gate, 20);
    assert_eq!(file.len(), 2);
    assert!(gate.submitted.is_empty());
    assert!(gate.sleeps.iter().all(|s| *s == BACKOFF_SECS));
}

#[test]
fn empty_queue_idles() {
    let mut file = Queue::new();
    let mut gate = MockGate::new();
    drive(&mut file, &mut gate, 5);
    assert!(gate.submitted.is_empty());
    assert_eq!(gate.sleeps, vec![IDLE_SECS; 5]);
}

#[test]
fn commits_enqueued_while_idle_are_picked_up() {
    let mut manager = SyncManager::new();
    let a = manager.step(SyncEvent::Loaded(Queue::new()));
    assert!(matches!(a, SyncAction::Sleep(s) if s == IDLE_SECS));
    let a = manager.step(SyncEvent::Loaded(queue_of(1)));
    assert!(matches!(a, SyncAction::Probe));
    assert_eq!(manager.phase, Phase::Probing);
}

#[test]
fn unexpected_event_starts_over() {
    let mut manager = SyncManager::new();
    let a = manager.step(SyncEvent::Submitted(true));
    assert!(matches!(a, SyncAction::Sleep(s) if s == IDLE_SECS));
    let a = manager.step(SyncEvent::Probed(true));
    assert!(matches!(a, SyncAction::Sleep(s) if s == IDLE_SECS));
    assert!(manager.queue.is_empty());
    assert_eq!(manager.phase, Phase::Waiting);
}

#[test]
fn accepted_submission_removes_head_from_state() {
    let mut manager = SyncManager::new();
    manager.step(SyncEvent::Loaded(queue_of(2)));
    let a = manager.step(SyncEvent::Probed(true));
    match a {
        SyncAction::Submit(c) => assert_eq!(c.item_id, 0),
        other => panic!("unexpected {:?}", other),
    }
    let a = manager.step(SyncEvent::Submitted(true));
    assert!(matches!(a, SyncAction::Acknowledge));
    assert_eq!(manager.queue.len(), 1);
    assert_eq!(manager.queue.peek().unwrap().item_id, 1);
}
