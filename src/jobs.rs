use vstd::prelude::*;

use crate::message::Message;

verus! {

/// Look at a conversation's queue and decide whether to cut a segment.
#[derive(Debug, Clone, Copy)]
pub struct MessageQueueSegmentJob {
    pub conversation_id: uuid::Uuid,
}

/// Turn a drained segment into an episodic memory.
#[derive(Debug)]
pub struct CreateEpisodicMemoryJob {
    pub conversation_id: uuid::Uuid,
    pub segment_messages: Vec<Message>,
}

/// A job as the backend stores and delivers it.
#[derive(Debug)]
pub enum WorkerJob {
    Segment(MessageQueueSegmentJob),
    Create(CreateEpisodicMemoryJob),
}

/// The tag of a job, which selects its handler.
#[derive(PartialEq, Eq, Structural, Clone, Copy, Debug)]
pub enum JobKind {
    Segment,
    Create,
}

pub open spec fn kind_of(job: WorkerJob) -> JobKind {
    match job {
        WorkerJob::Segment(_) => JobKind::Segment,
        WorkerJob::Create(_) => JobKind::Create,
    }
}

impl WorkerJob {
    /// Which handler runs this job.
    pub fn kind(&self) -> (r: JobKind)
        ensures
            r == kind_of(*self),
    {
        match self {
            WorkerJob::Segment(_) => JobKind::Segment,
            WorkerJob::Create(_) => JobKind::Create,
        }
    }

    /// The conversation the job belongs to.
    pub fn conversation_id(&self) -> (r: uuid::Uuid)
        ensures
            r == match *self {
                WorkerJob::Segment(j) => j.conversation_id,
                WorkerJob::Create(j) => j.conversation_id,
            },
    {
        match self {
            WorkerJob::Segment(j) => j.conversation_id,
            WorkerJob::Create(j) => j.conversation_id,
        }
    }
}

} // verus!
