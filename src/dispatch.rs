use vstd::prelude::*;

use crate::create::{CreateAction, CreateJobRun};
use crate::jobs::WorkerJob;
use crate::segment::{SegmentAction, SegmentJobRun, SegmentState};

verus! {

/// A job that has been handed to its handler, with the handler's first action.
#[derive(Debug)]
pub enum StartedJob {
    Segment(SegmentJobRun, SegmentAction),
    Create(CreateJobRun, CreateAction),
}

/// Hands each kind of job to its own handler.
pub fn dispatch(job: WorkerJob) -> (r: StartedJob)
    ensures
        match job {
            WorkerJob::Segment(j) => match r {
                StartedJob::Segment(run, a) => run.conversation_id == j.conversation_id
                    && run.state == SegmentState::Reading && a == SegmentAction::ReadQueue,
                _ => false,
            },
            WorkerJob::Create(j) => match r {
                StartedJob::Create(run, a) => run.conversation_id == j.conversation_id
                    && run.state == crate::create::CreateState::Building && a == (
                    CreateAction::Build {
                        conversation_id: j.conversation_id,
                        segment_messages: j.segment_messages,
                    }),
                _ => false,
            },
        },
{
    match job {
        WorkerJob::Segment(j) => {
            let (run, a) = SegmentJobRun::start(j);
            StartedJob::Segment(run, a)
        },
        WorkerJob::Create(j) => {
            let (run, a) = CreateJobRun::start(j);
            StartedJob::Create(run, a)
        },
    }
}

} // verus!
