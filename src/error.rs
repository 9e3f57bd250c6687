use vstd::prelude::*;

use crate::queue::QueueError;

verus! {

/// The status a failure reports when nothing more specific is given.
pub const INTERNAL_SERVER_ERROR: u16 = 500;

/// The kinds of failure a handler can end with.
#[derive(PartialEq, Eq, Structural, Clone, Copy, Debug)]
pub enum ErrorKind {
    /// A store or network failure while reading, draining or inserting.
    TransientInfra,
    /// The semantic classifier timed out or answered with something malformed.
    ClassifierFailure,
    /// A drain asked for more messages than the queue held.
    InsufficientQueueLength,
    /// A job payload or a handler event that does not fit.
    Validation,
}

/// The step of the pipeline at which a failure was raised.
#[derive(PartialEq, Eq, Structural, Clone, Copy, Debug)]
pub enum Stage {
    Snapshot,
    Rules,
    Classify,
    Drain,
    Enqueue,
    Materialize,
    Insert,
    Run,
}

/// A classified failure with the context it was raised in.
#[derive(Debug)]
pub struct AppError {
    pub kind: ErrorKind,
    pub status_code: u16,
    pub stage: Stage,
    pub message: String,
}

impl AppError {
    /// A failure that reports the internal-error status.
    pub fn new(kind: ErrorKind, stage: Stage, message: String) -> (r: Self)
        ensures
            r.kind == kind,
            r.stage == stage,
            r.message == message,
            r.status_code == INTERNAL_SERVER_ERROR,
    {
        AppError { kind, status_code: INTERNAL_SERVER_ERROR, stage, message }
    }

    /// A failure that reports the given status, which must be a three-digit code.
    pub fn with_status(status: u16, kind: ErrorKind, stage: Stage, message: String) -> (r: Self)
        requires
            100 <= status <= 999,
        ensures
            r.kind == kind,
            r.stage == stage,
            r.message == message,
            r.status_code == status,
    {
        AppError { kind, status_code: status, stage, message }
    }

    pub fn status_code(&self) -> (r: u16)
        ensures
            r == self.status_code,
    {
        self.status_code
    }

    /// Where in the pipeline the failure was raised.
    pub fn location(&self) -> (r: Stage)
        ensures
            r == self.stage,
    {
        self.stage
    }

    pub fn kind(&self) -> (r: ErrorKind)
        ensures
            r == self.kind,
    {
        self.kind
    }

    /// The same failure, classified as coming from the semantic classifier.
    pub fn into_classifier_failure(self) -> (r: Self)
        ensures
            r.kind == ErrorKind::ClassifierFailure,
            r.stage == Stage::Classify,
            r.status_code == self.status_code,
            r.message == self.message,
    {
        AppError { kind: ErrorKind::ClassifierFailure, stage: Stage::Classify, ..self }
    }

    /// A refused drain, as a handler failure.
    pub fn from_queue_error(e: QueueError, message: String) -> (r: Self)
        ensures
            r.kind == ErrorKind::InsufficientQueueLength,
            r.stage == Stage::Drain,
            r.status_code == INTERNAL_SERVER_ERROR,
            r.message == message,
    {
        match e {
            QueueError::InsufficientQueueLength { .. } => AppError::new(
                ErrorKind::InsufficientQueueLength,
                Stage::Drain,
                message,
            ),
        }
    }
}

/// A failure as it is shown outside: its status and message always, and where
/// it was raised only when full detail is asked for.
#[derive(Debug)]
pub struct ErrorReport {
    pub status_code: u16,
    pub message: String,
    pub stage: Option<Stage>,
}

impl AppError {
    /// The report of this failure; `detailed` is for development settings.
    pub fn report(&self, detailed: bool) -> (r: ErrorReport)
        ensures
            r.status_code == self.status_code,
            r.message == self.message,
            r.stage == (if detailed {
                Some(self.stage)
            } else {
                None
            }),
    {
        let stage = if detailed {
            Some(self.stage)
        } else {
            None
        };
        ErrorReport { status_code: self.status_code, message: self.message.clone(), stage }
    }
}

/// The failure a job handler reports to the backend.
#[derive(Debug)]
pub struct WorkerError(pub AppError);

impl From<AppError> for WorkerError {
    fn from(err: AppError) -> (r: Self) {
        WorkerError(err)
    }
}

impl vstd::std_specs::convert::FromSpecImpl<AppError> for WorkerError {
    open spec fn obeys_from_spec() -> bool {
        true
    }

    open spec fn from_spec(err: AppError) -> WorkerError {
        WorkerError(err)
    }
}

} // verus!
