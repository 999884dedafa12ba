//! Index jobs over a directory, and the board that publishes their results.
//!
//! A job records the directory it was started for, fixed when it starts,
//! and is finished once: the first outcome stands and later ones are
//! discarded. A finished job is published to the board, where the last
//! publication replaces the one before it as a whole.

use crate::path::DirPath;
use vstd::prelude::*;

verus! {

/// Why an index job failed.
#[derive(Clone, Copy, Debug, PartialEq, Eq, Structural)]
pub enum IndexingError {
    IoFailure,
}

/// Where an index job stands.
pub enum JobState<I> {
    Pending,
    Done(I),
    Failed(IndexingError),
}

/// What a job holds: the directory it indexes and where it stands.
pub struct JobView<I> {
    pub target: Seq<Seq<char>>,
    pub state: JobState<I>,
}

/// The state of a job once `outcome` has come back: a pending job takes it,
/// a finished one keeps its own.
pub open spec fn finished_with<I>(state: JobState<I>, outcome: Result<I, IndexingError>) -> JobState<I> {
    match state {
        JobState::Pending => match outcome {
            Ok(index) => JobState::Done(index),
            Err(e) => JobState::Failed(e),
        },
        _ => state,
    }
}

/// A background index job: the directory it was started for and its state.
pub struct IndexJobHandle<I> {
    target_path: DirPath,
    state: JobState<I>,
}

impl<I> View for IndexJobHandle<I> {
    type V = JobView<I>;

    closed spec fn view(&self) -> JobView<I> {
        JobView { target: self.target_path@, state: self.state }
    }
}

/// Starts the record of an index job over `path`, as the path is now: a
/// later change of whatever the path was read from does not reach the job.
pub fn start_indexing<I>(path: &DirPath) -> (r: IndexJobHandle<I>)
    ensures
        r@.target == path@,
        r@.state is Pending,
{
    IndexJobHandle { target_path: path.copy(), state: JobState::Pending }
}

impl<I> IndexJobHandle<I> {
    /// The directory the job indexes.
    pub fn target_path(&self) -> (r: &DirPath)
        ensures
            r@ == self@.target,
    {
        &self.target_path
    }

    /// Where the job stands.
    pub fn state(&self) -> (r: &JobState<I>)
        ensures
            *r == self@.state,
    {
        &self.state
    }

    /// Whether the job has not finished yet.
    pub fn is_pending(&self) -> (r: bool)
        ensures
            r == self@.state is Pending,
    {
        match self.state {
            JobState::Pending => true,
            _ => false,
        }
    }

    /// Records the outcome of the job. Only the first outcome is kept:
    /// returns whether this one was.
    pub fn finish(&mut self, outcome: Result<I, IndexingError>) -> (kept: bool)
        ensures
            final(self)@.target == old(self)@.target,
            final(self)@.state == finished_with(old(self)@.state, outcome),
            kept == old(self)@.state is Pending,
    {
        match self.state {
            JobState::Pending => {
                self.state = match outcome {
                    Ok(index) => JobState::Done(index),
                    Err(e) => JobState::Failed(e),
                };
                true
            },
            _ => false,
        }
    }
}

/// The published index after `job` is published: a finished job's index
/// replaces what was there; a pending or failed job changes nothing.
pub open spec fn published_after<I>(current: Option<(Seq<Seq<char>>, I)>, job: JobView<I>) -> Option<
    (Seq<Seq<char>>, I),
> {
    match job.state {
        JobState::Done(index) => Some((job.target, index)),
        _ => current,
    }
}

/// The shared query surface: the last published index and the directory it
/// was built over.
pub struct IndexBoard<I> {
    current: Option<(DirPath, I)>,
}

impl<I> View for IndexBoard<I> {
    type V = Option<(Seq<Seq<char>>, I)>;

    closed spec fn view(&self) -> Option<(Seq<Seq<char>>, I)> {
        match self.current {
            Some((p, i)) => Some((p@, i)),
            None => None,
        }
    }
}

impl<I> IndexBoard<I> {
    /// A board with nothing published.
    pub fn new() -> (r: IndexBoard<I>)
        ensures
            r@ is None,
    {
        IndexBoard { current: None }
    }

    /// Publishes a finished job: its index replaces the one published
    /// before. A job that failed or has not finished publishes nothing.
    /// Returns whether the job was published.
    pub fn publish(&mut self, job: IndexJobHandle<I>) -> (published: bool)
        ensures
            final(self)@ == published_after(old(self)@, job@),
            published == job@.state is Done,
    {
        let IndexJobHandle { target_path, state } = job;
        match state {
            JobState::Done(index) => {
                self.current = Some((target_path, index));
                true
            },
            _ => false,
        }
    }

    /// The published index, if any.
    pub fn current(&self) -> (r: Option<&I>)
        ensures
            match self@ {
                Some((_, i)) => r == Some(&i),
                None => r is None,
            },
    {
        match &self.current {
            Some((_, index)) => Some(index),
            None => None,
        }
    }

    /// The directory the published index was built over, if any.
    pub fn indexed_path(&self) -> (r: Option<&DirPath>)
        ensures
            match self@ {
                Some((p, _)) => r matches Some(q) && q@ == p,
                None => r is None,
            },
    {
        match &self.current {
            Some((path, _)) => Some(path),
            None => None,
        }
    }

    /// The published index if it was built over `path`; none otherwise,
    /// also when the last job over `path` failed.
    pub fn lookup(&self, path: &DirPath) -> (r: Option<&I>)
        ensures
            match self@ {
                Some((p, i)) => if p == path@ { r == Some(&i) } else { r is None },
                None => r is None,
            },
    {
        match &self.current {
            Some((p, index)) => {
                if p.same_as(path) {
                    Some(index)
                } else {
                    None
                }
            },
            None => None,
        }
    }
}

/// Of two jobs published one after the other, the board holds what the
/// last finished one built, whole: when both finished, the second one's
/// directory and index.
pub proof fn lemma_last_publish_wins<I>(current: Option<(Seq<Seq<char>>, I)>, first: JobView<I>, second: JobView<I>)
    requires
        first.state is Done,
        second.state is Done,
    ensures
        published_after(published_after(current, first), second) == Some((second.target, second.state->Done_0)),
{
}

/// A failed job publishes nothing: the board keeps what it had.
pub proof fn lemma_failed_job_publishes_nothing<I>(current: Option<(Seq<Seq<char>>, I)>, job: JobView<I>)
    requires
        job.state is Failed,
    ensures
        published_after(current, job) == current,
{
}

} // verus!
