//! The ordered backlog of commits that await delivery, and what becomes of
//! its file when it is read back.
use std::collections::VecDeque;

use vstd::prelude::*;

use crate::commit::Commit;
use crate::error::AppError;

verus! {

/// Commits in the order they were enqueued: the head is delivered first.
#[derive(Debug)]
pub struct Queue {
    pub items: VecDeque<Commit>,
}

impl View for Queue {
    type V = Seq<Commit>;

    open spec fn view(&self) -> Seq<Commit> {
        self.items@
    }
}

/// What reading the queue file found, as handed over by the code that reads it.
#[derive(Debug)]
pub enum QueueFile {
    /// No file exists at the path.
    Absent,
    /// The file parsed to this queue.
    Valid(Queue),
    /// The file exists but does not parse; the text says why.
    Corrupt(String),
}

/// A queue file as a value.
pub enum FileModel {
    Absent,
    Holding(Seq<Commit>),
    Corrupt(Seq<char>),
}

impl View for QueueFile {
    type V = FileModel;

    open spec fn view(&self) -> FileModel {
        match self {
            QueueFile::Absent => FileModel::Absent,
            QueueFile::Valid(q) => FileModel::Holding(q@),
            QueueFile::Corrupt(why) => FileModel::Corrupt(why@),
        }
    }
}

/// What to do with a queue file that exists but does not parse.
#[derive(Clone, Copy, Debug, PartialEq, Eq)]
pub enum CorruptPolicy {
    /// Carry on with an empty queue: availability over strictness.
    StartEmpty,
    /// Report a serialization error and leave the file for an operator.
    Reject,
}

/// The queue that a file yields under `policy`; `None` where it is refused.
pub open spec fn loaded(file: FileModel, policy: CorruptPolicy) -> Option<Seq<Commit>> {
    match file {
        FileModel::Absent => Some(Seq::empty()),
        FileModel::Holding(s) => Some(s),
        FileModel::Corrupt(_) => match policy {
            CorruptPolicy::StartEmpty => Some(Seq::empty()),
            CorruptPolicy::Reject => None,
        },
    }
}

/// The error a refused file is reported with: a serialization error that
/// carries the parser's text.
pub open spec fn refusal(file: FileModel, e: AppError) -> bool {
    match file {
        FileModel::Corrupt(why) => e matches AppError::Serialization(m) && m@ == why,
        _ => false,
    }
}

impl Queue {
    pub fn new() -> (r: Queue)
        ensures
            r@ == Seq::<Commit>::empty(),
    {
        Queue { items: VecDeque::new() }
    }

    /// Reads back a queue file: none is an empty queue, a corrupt one is
    /// treated as `policy` says.
    pub fn load(file: QueueFile, policy: CorruptPolicy) -> (r: Result<Queue, AppError>)
        ensures
            match loaded(file@, policy) {
                Some(s) => r matches Ok(q) && q@ == s,
                None => r matches Err(e) && refusal(file@, e),
            },
    {
        match file {
            QueueFile::Absent => Ok(Queue::new()),
            QueueFile::Valid(q) => Ok(q),
            QueueFile::Corrupt(why) => match policy {
                CorruptPolicy::StartEmpty => Ok(Queue::new()),
                CorruptPolicy::Reject => Err(AppError::Serialization(why)),
            },
        }
    }

    /// Adds a commit at the tail. The caller persists the queue before
    /// reporting success.
    pub fn enqueue(&mut self, commit: Commit)
        ensures
            final(self)@ == old(self)@.push(commit),
    {
        self.items.push_back(commit);
    }

    /// The head commit, left in place.
    pub fn peek(&self) -> (r: Option<&Commit>)
        ensures
            self@.len() == 0 ==> r is None,
            self@.len() > 0 ==> (r matches Some(c) && *c == self@[0]),
    {
        if self.items.len() == 0 {
            None
        } else {
            Some(&self.items[0])
        }
    }

    /// Removes and returns the head commit. On an empty queue nothing changes
    /// and nothing is returned, so there is nothing to persist.
    pub fn pop_front(&mut self) -> (r: Option<Commit>)
        ensures
            old(self)@.len() == 0 ==> (r is None && final(self)@ == old(self)@),
            old(self)@.len() > 0 ==> (r == Some(old(self)@[0]) && final(self)@ == old(self)@.drop_first()),
    {
        self.items.pop_front()
    }

    pub fn len(&self) -> (r: usize)
        ensures
            r == self@.len(),
    {
        self.items.len()
    }

    pub fn is_empty(&self) -> (r: bool)
        ensures
            r == (self@.len() == 0),
    {
        self.items.len() == 0
    }
}

/// The queue that enqueueing `commit` onto what `file` holds leaves behind.
pub open spec fn enqueued(file: FileModel, commit: Commit, policy: CorruptPolicy) -> Option<
    Seq<Commit>,
> {
    match loaded(file, policy) {
        Some(s) => Some(s.push(commit)),
        None => None,
    }
}

/// Reads back the queue file and appends `commit`; the result is what the
/// caller must save before reporting the commit as accepted.
pub fn enqueue_commit(file: QueueFile, commit: Commit, policy: CorruptPolicy) -> (r: Result<
    Queue,
    AppError,
>)
    ensures
        match enqueued(file@, commit, policy) {
            Some(s) => r matches Ok(q) && q@ == s,
            None => r matches Err(e) && refusal(file@, e),
        },
{
    match Queue::load(file, policy) {
        Ok(mut queue) => {
            queue.enqueue(commit);
            Ok(queue)
        },
        Err(e) => Err(e),
    }
}

/// The backlog that a queue file holds.
pub fn queue_len(file: QueueFile, policy: CorruptPolicy) -> (r: Result<usize, AppError>)
    ensures
        match loaded(file@, policy) {
            Some(s) => r == Ok::<usize, AppError>(s.len() as usize),
            None => r matches Err(e) && refusal(file@, e),
        },
{
    match Queue::load(file, policy) {
        Ok(queue) => Ok(queue.len()),
        Err(e) => Err(e),
    }
}

/// What the file holds after each commit of `commits` was enqueued in turn,
/// each time onto what the previous enqueue saved, starting with no file.
pub open spec fn saved_after(commits: Seq<Commit>, policy: CorruptPolicy) -> Option<Seq<Commit>>
    decreases commits.len(),
{
    if commits.len() == 0 {
        loaded(FileModel::Absent, policy)
    } else {
        match saved_after(commits.drop_last(), policy) {
            Some(s) => enqueued(FileModel::Holding(s), commits.last(), policy),
            None => None,
        }
    }
}

/// Enqueued commits survive restarts: however many times the queue is read
/// back from its file between enqueues, the file ends up holding exactly the
/// enqueued commits, in the order of the calls.
pub proof fn enqueues_survive_reloads(commits: Seq<Commit>, policy: CorruptPolicy)
    ensures
        saved_after(commits, policy) == Some(commits),
    decreases commits.len(),
{
    if commits.len() > 0 {
        enqueues_survive_reloads(commits.drop_last(), policy);
        assert(commits.drop_last().push(commits.last()) =~= commits);
    } else {
        assert(commits =~= Seq::<Commit>::empty());
    }
}

} // verus!
