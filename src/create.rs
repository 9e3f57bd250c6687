use vstd::prelude::*;

use crate::error::{AppError, ErrorKind, Stage, WorkerError};
use crate::jobs::CreateEpisodicMemoryJob;
use crate::message::Message;

verus! {

/// Where a create job stands between two outside steps.
#[derive(PartialEq, Eq, Structural, Clone, Copy, Debug)]
pub enum CreateState {
    /// Waiting for the episodic memory to be built from the segment.
    Building,
    /// Waiting for the record to be inserted.
    Inserting,
    Done,
}

/// What came back from the last outside step.
#[derive(Debug)]
pub enum CreateEvent {
    Built(Result<(), AppError>),
    Inserted(Result<(), AppError>),
}

/// The outside step to perform next.
#[derive(Debug)]
pub enum CreateAction {
    /// Build the episodic memory of these messages, in this order.
    Build { conversation_id: uuid::Uuid, segment_messages: Vec<Message> },
    /// Insert the record that was built.
    Insert,
    Finish(Result<(), WorkerError>),
}

/// One run of the create handler for one job.
#[derive(Debug)]
pub struct CreateJobRun {
    pub conversation_id: uuid::Uuid,
    pub state: CreateState,
}

/// The create handler's decisions: from state `s`, event `e` leads to state `t`
/// and action `a`.
pub open spec fn create_transition(
    s: CreateState,
    e: CreateEvent,
    t: CreateState,
    a: CreateAction,
) -> bool {
    match (s, e) {
        (CreateState::Building, CreateEvent::Built(Ok(()))) => t == CreateState::Inserting
            && a == CreateAction::Insert,
        (CreateState::Building, CreateEvent::Built(Err(err))) => t == CreateState::Done && a
            == CreateAction::Finish(Err(WorkerError(err))),
        (CreateState::Inserting, CreateEvent::Inserted(Ok(()))) => t == CreateState::Done && a
            == CreateAction::Finish(Ok(())),
        (CreateState::Inserting, CreateEvent::Inserted(Err(err))) => t == CreateState::Done && a
            == CreateAction::Finish(Err(WorkerError(err))),
        _ => t == CreateState::Done && match a {
            CreateAction::Finish(Err(WorkerError(err))) => err.kind == ErrorKind::Validation,
            _ => false,
        },
    }
}

impl CreateJobRun {
    /// A new run, which first hands the segment out to be built into a memory.
    pub fn start(job: CreateEpisodicMemoryJob) -> (r: (CreateJobRun, CreateAction))
        ensures
            r.0.conversation_id == job.conversation_id,
            r.0.state == CreateState::Building,
            r.1 == (CreateAction::Build {
                conversation_id: job.conversation_id,
                segment_messages: job.segment_messages,
            }),
    {
        let cid = job.conversation_id;
        (
            CreateJobRun { conversation_id: cid, state: CreateState::Building },
            CreateAction::Build { conversation_id: cid, segment_messages: job.segment_messages },
        )
    }

    /// Takes the outcome of the last outside step and says what to do next.
    pub fn step(self, event: CreateEvent) -> (r: (CreateJobRun, CreateAction))
        ensures
            r.0.conversation_id == self.conversation_id,
            create_transition(self.state, event, r.0.state, r.1),
    {
        let cid = self.conversation_id;
        let (t, a) = match (self.state, event) {
            (CreateState::Building, CreateEvent::Built(Ok(()))) => (
                CreateState::Inserting,
                CreateAction::Insert,
            ),
            (CreateState::Building, CreateEvent::Built(Err(err))) => (
                CreateState::Done,
                CreateAction::Finish(Err(WorkerError(err))),
            ),
            (CreateState::Inserting, CreateEvent::Inserted(Ok(()))) => (
                CreateState::Done,
                CreateAction::Finish(Ok(())),
            ),
            (CreateState::Inserting, CreateEvent::Inserted(Err(err))) => (
                CreateState::Done,
                CreateAction::Finish(Err(WorkerError(err))),
            ),
            (state, _) => {
                let stage = if state == CreateState::Inserting {
                    Stage::Insert
                } else {
                    Stage::Materialize
                };
                let err = AppError::new(ErrorKind::Validation, stage, "unexpected event".to_owned());
                (CreateState::Done, CreateAction::Finish(Err(WorkerError(err))))
            },
        };
        (CreateJobRun { conversation_id: cid, state: t }, a)
    }
}

} // verus!
