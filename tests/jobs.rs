use plast_mem::create::{CreateAction, CreateEvent, CreateJobRun, CreateState};
use plast_mem::dispatch::{dispatch, StartedJob};
use plast_mem::error::{AppError, ErrorKind, Stage, WorkerError, INTERNAL_SERVER_ERROR};
use plast_mem::jobs::{CreateEpisodicMemoryJob, JobKind, MessageQueueSegmentJob, WorkerJob};
use plast_mem::message::{clone_messages, Message, MessageRole};
use plast_mem::queue::QueueError;
use plast_mem::segment::SegmentAction;
use uuid::Uuid;

fn msg(role: MessageRole, content: &str) -> Message {
    Message { role, content: content.to_string() }
}

fn create_job() -> CreateEpisodicMemoryJob {
    CreateEpisodicMemoryJob {
        conversation_id: Uuid::from_u128(3),
        segment_messages: vec![msg(MessageRole::User, "U1"), msg(MessageRole::Assistant, "A1")],
    }
}

#[test]
fn job_kinds() {
    let seg = WorkerJob::Segment(MessageQueueSegmentJob { conversation_id: Uuid::from_u128(1) });
    let cre = WorkerJob::Create(create_job());
    assert_eq!(seg.kind(), JobKind::Segment);
    assert_eq!(cre.kind(), JobKind::Create);
    assert_eq!(seg.conversation_id(), Uuid::from_u128(1));
    assert_eq!(cre.conversation_id(), Uuid::from_u128(3));
}

#[test]
fn dispatch_routes_by_kind() {
    match dispatch(WorkerJob::Segment(MessageQueueSegmentJob { conversation_id: Uuid::from_u128(1) })) {
        StartedJob::Segment(run, SegmentAction::ReadQueue) => {
            assert_eq!(run.conversation_id, Uuid::from_u128(1))
        }
        other => panic!("unexpected {:?}", other),
    }
    match dispatch(WorkerJob::Create(create_job())) {
        StartedJob::Create(run, CreateAction::Build { conversation_id, segment_messages }) => {
            assert_eq!(run.state, CreateState::Building);
            assert_eq!(conversation_id, Uuid::from_u128(3));
            assert_eq!(segment_messages.len(), 2);
            assert_eq!(segment_messages[1].content, "A1");
        }
        other => panic!("unexpected {:?}", other),
    }
}

#[test]
fn create_builds_then_inserts() {
    let (run, _) = CreateJobRun::start(create_job());
    let (run, action) = run.step(CreateEvent::Built(Ok(())));
    assert_eq!(run.state, CreateState::Inserting);
    assert!(matches!(action, CreateAction::Insert));
    let (run, action) = run.step(CreateEvent::Inserted(Ok(())));
    assert_eq!(run.state, CreateState::Done);
    assert!(matches!(action, CreateAction::Finish(Ok(()))));
}

#[test]
fn create_reports_failures() {
    let (run, _) = CreateJobRun::start(create_job());
    let err = AppError::new(ErrorKind::TransientInfra, Stage::Materialize, "llm".to_string());
    let (_, action) = run.step(CreateEvent::Built(Err(err)));
    assert!(matches!(action, CreateAction::Finish(Err(WorkerError(ref e))) if e.stage == Stage::Materialize));

    let (run, _) = CreateJobRun::start(create_job());
    let (run, _) = run.step(CreateEvent::Built(Ok(())));
    let err = AppError::new(ErrorKind::TransientInfra, Stage::Insert, "db".to_string());
    let (_, action) = run.step(CreateEvent::Inserted(Err(err)));
    assert!(matches!(action, CreateAction::Finish(Err(WorkerError(ref e))) if e.kind == ErrorKind::TransientInfra));

    let (run, _) = CreateJobRun::start(create_job());
    let (_, action) = run.step(CreateEvent::Inserted(Ok(())));
    assert!(matches!(action, CreateAction::Finish(Err(WorkerError(ref e))) if e.kind == ErrorKind::Validation));
}

#[test]
fn error_constructors() {
    let e = AppError::new(ErrorKind::TransientInfra, Stage::Snapshot, "x".to_string());
    assert_eq!(e.status_code(), INTERNAL_SERVER_ERROR);
    assert_eq!(e.location(), Stage::Snapshot);
    assert_eq!(e.kind(), ErrorKind::TransientInfra);
    let e = AppError::with_status(404, ErrorKind::Validation, Stage::Run, "missing".to_string());
    assert_eq!(e.status_code(), 404);
    let w: WorkerError = WorkerError::from(e);
    assert_eq!(w.0.message, "missing");
}

#[test]
fn queue_error_becomes_insufficient_length() {
    let e = AppError::from_queue_error(
        QueueError::InsufficientQueueLength { requested: 3, available: 1 },
        "drain".to_string(),
    );
    assert_eq!(e.kind, ErrorKind::InsufficientQueueLength);
    assert_eq!(e.stage, Stage::Drain);
    assert_eq!(e.status_code, 500);
}

#[test]
fn clone_messages_copies_each() {
    let src = vec![msg(MessageRole::User, "a"), msg(MessageRole::Assistant, "b")];
    let out = clone_messages(&src);
    assert_eq!(out.len(), 2);
    assert_eq!(out[0].content, "a");
    assert_eq!(out[1].role, MessageRole::Assistant);
    assert_eq!(src[1].clone().content, "b");
}

#[test]
fn report_hides_origin_unless_detailed() {
    let e = AppError::with_status(503, ErrorKind::TransientInfra, Stage::Insert, "db down".to_string());
    let outside = e.report(false);
    assert_eq!(outside.status_code, 503);
    assert_eq!(outside.message, "db down");
    assert_eq!(outside.stage, None);
    let inside = e.report(true);
    assert_eq!(inside.stage, Some(Stage::Insert));
}
