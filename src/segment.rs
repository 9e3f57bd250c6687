use vstd::prelude::*;

use crate::error::{AppError, ErrorKind, Stage, WorkerError};
use crate::jobs::{CreateEpisodicMemoryJob, MessageQueueSegmentJob, WorkerJob};
use crate::message::{Message, MessageRole};

verus! {

/// What the rule engine says about the newest message.
#[derive(PartialEq, Eq, Structural, Clone, Copy, Debug)]
pub enum SegmentDecision {
    Split,
    NoSplit,
    /// The rules cannot tell: ask the semantic classifier.
    CallLlm,
}

/// A speaker as the semantic classifier names it.
#[derive(PartialEq, Eq, Structural, Clone, Copy, Debug)]
pub enum Role {
    User,
    Assistant,
}

/// A message in the shape the semantic classifier takes.
#[derive(Debug)]
pub struct InputMessage {
    pub role: Role,
    pub content: String,
}

pub open spec fn role_of(r: MessageRole) -> Role {
    match r {
        MessageRole::User => Role::User,
        MessageRole::Assistant => Role::Assistant,
    }
}

pub open spec fn input_of(m: Message) -> InputMessage {
    InputMessage { role: role_of(m.role), content: m.content }
}

pub open spec fn inputs_of(ms: Seq<Message>) -> Seq<InputMessage> {
    ms.map_values(|m: Message| input_of(m))
}

/// One message in the classifier's shape.
pub fn to_input_message(m: &Message) -> (r: InputMessage)
    ensures
        r == input_of(*m),
{
    let role = match m.role {
        MessageRole::User => Role::User,
        MessageRole::Assistant => Role::Assistant,
    };
    InputMessage { role, content: m.content.clone() }
}

/// The messages in the classifier's shape, in the same order.
pub fn to_input_messages(messages: &[Message]) -> (r: Vec<InputMessage>)
    ensures
        r@ == inputs_of(messages@),
{
    let mut r: Vec<InputMessage> = Vec::new();
    let mut i: usize = 0;
    while i < messages.len()
        invariant
            i <= messages@.len(),
            r@ == inputs_of(messages@.subrange(0, i as int)),
        decreases messages@.len() - i,
    {
        r.push(to_input_message(&messages[i]));
        assert(inputs_of(messages@.subrange(0, i + 1)) =~= inputs_of(
            messages@.subrange(0, i as int),
        ).push(input_of(messages@[i as int])));
        i = i + 1;
    }
    assert(messages@.subrange(0, messages@.len() as int) =~= messages@);
    r
}

/// Where a segment job stands between two outside steps.
#[derive(Debug)]
pub enum SegmentState {
    /// Waiting for a snapshot of the queue.
    Reading,
    /// Waiting for the rule engine's decision on `incoming` after `recent`.
    Deciding { recent: Vec<Message>, incoming: Message },
    /// Waiting for the semantic classifier.
    Classifying { recent: Vec<Message> },
    /// Waiting for the queue to give up its first `n` messages.
    Draining { n: usize },
    /// Waiting for the backend to take the create job.
    Enqueuing,
    Done,
}

/// What came back from the last outside step.
#[derive(Debug)]
pub enum SegmentEvent {
    Snapshot(Vec<Message>),
    Rules(SegmentDecision),
    Classified(Result<bool, AppError>),
    Drained(Result<Vec<Message>, AppError>),
    Pushed(Result<(), AppError>),
}

/// The outside step to perform next.
#[derive(Debug)]
#[allow(inconsistent_fields)]
pub enum SegmentAction {
    /// Take a snapshot of the conversation's queue.
    ReadQueue,
    /// Run the rule engine.
    RunRules { recent: Vec<Message>, incoming: Message },
    /// Ask the semantic classifier whether `incoming` opens a new segment.
    Classify { recent: Vec<InputMessage>, incoming: InputMessage },
    /// Drain the first `n` messages of the queue.
    Drain(usize),
    /// Push a job to the backend.
    Push(WorkerJob),
    /// The handler is over, with this outcome.
    Finish(Result<(), WorkerError>),
}

/// One run of the segment handler for one job.
#[derive(Debug)]
pub struct SegmentJobRun {
    pub conversation_id: uuid::Uuid,
    pub state: SegmentState,
}

/// A classifier failure as the handler reports it.
pub open spec fn classifier_failure(e: AppError) -> AppError {
    AppError { kind: ErrorKind::ClassifierFailure, stage: Stage::Classify, ..e }
}

/// The run goes on to drain the `n` messages that preceded the newest one.
pub open spec fn splits(t: SegmentState, a: SegmentAction, n: nat) -> bool {
    t == SegmentState::Draining { n: n as usize } && a == SegmentAction::Drain(n as usize)
}

/// The run ends successfully without touching the queue or the backend.
pub open spec fn ends_quietly(t: SegmentState, a: SegmentAction) -> bool {
    t == SegmentState::Done && a == SegmentAction::Finish(Ok(()))
}

/// The run ends with `err` reported to the backend.
pub open spec fn fails_with(t: SegmentState, a: SegmentAction, err: AppError) -> bool {
    t == SegmentState::Done && a == SegmentAction::Finish(Err(WorkerError(err)))
}

/// The run ends because the event does not fit where it stands.
pub open spec fn rejects(t: SegmentState, a: SegmentAction) -> bool {
    t == SegmentState::Done && match a {
        SegmentAction::Finish(Err(WorkerError(err))) => err.kind == ErrorKind::Validation,
        _ => false,
    }
}

/// The handler's decisions: from state `s` of a run for conversation `cid`,
/// event `e` leads to state `t` and action `a`.
pub open spec fn transition(
    cid: uuid::Uuid,
    s: SegmentState,
    e: SegmentEvent,
    t: SegmentState,
    a: SegmentAction,
) -> bool {
    match s {
        SegmentState::Reading => match e {
            SegmentEvent::Snapshot(ms) => if ms@.len() == 0 {
                ends_quietly(t, a)
            } else {
                match (t, a) {
                    (
                        SegmentState::Deciding { recent, incoming },
                        SegmentAction::RunRules { recent: r2, incoming: i2 },
                    ) => recent@ == ms@.drop_last() && incoming == ms@.last() && r2@ == recent@
                        && i2 == incoming,
                    _ => false,
                }
            },
            _ => rejects(t, a),
        },
        SegmentState::Deciding { recent, incoming } => match e {
            SegmentEvent::Rules(SegmentDecision::Split) => splits(t, a, recent@.len()),
            SegmentEvent::Rules(SegmentDecision::NoSplit) => ends_quietly(t, a),
            SegmentEvent::Rules(SegmentDecision::CallLlm) => match (t, a) {
                (
                    SegmentState::Classifying { recent: r2 },
                    SegmentAction::Classify { recent: ri, incoming: ii },
                ) => r2@ == recent@ && ri@ == inputs_of(recent@) && ii == input_of(incoming),
                _ => false,
            },
            _ => rejects(t, a),
        },
        SegmentState::Classifying { recent } => match e {
            SegmentEvent::Classified(Ok(true)) => splits(t, a, recent@.len()),
            SegmentEvent::Classified(Ok(false)) => ends_quietly(t, a),
            SegmentEvent::Classified(Err(err)) => fails_with(t, a, classifier_failure(err)),
            _ => rejects(t, a),
        },
        SegmentState::Draining { n } => match e {
            SegmentEvent::Drained(Ok(segment)) => if segment@.len() == n {
                t == SegmentState::Enqueuing && a == SegmentAction::Push(
                    WorkerJob::Create(
                        CreateEpisodicMemoryJob { conversation_id: cid, segment_messages: segment },
                    ),
                )
            } else {
                rejects(t, a)
            },
            SegmentEvent::Drained(Err(err)) => fails_with(t, a, err),
            _ => rejects(t, a),
        },
        SegmentState::Enqueuing => match e {
            SegmentEvent::Pushed(Ok(())) => ends_quietly(t, a),
            SegmentEvent::Pushed(Err(err)) => fails_with(t, a, err),
            _ => rejects(t, a),
        },
        SegmentState::Done => rejects(t, a),
    }
}

/// Escalation: a classifier answer of `true` leads exactly where a rule-based
/// `Split` leads, and `false` exactly where `NoSplit` leads; a classifier
/// failure ends the run as a classifier failure, with no drain and no push.
pub proof fn lemma_escalation_matches_rules(
    cid: uuid::Uuid,
    recent: Vec<Message>,
    incoming: Message,
    answer: Result<bool, AppError>,
    t: SegmentState,
    a: SegmentAction,
)
    ensures
        answer matches Ok(split) ==> (transition(
            cid,
            SegmentState::Classifying { recent },
            SegmentEvent::Classified(answer),
            t,
            a,
        ) <==> transition(
            cid,
            SegmentState::Deciding { recent, incoming },
            SegmentEvent::Rules(
                if split {
                    SegmentDecision::Split
                } else {
                    SegmentDecision::NoSplit
                },
            ),
            t,
            a,
        )),
        answer matches Err(err) ==> (transition(
            cid,
            SegmentState::Classifying { recent },
            SegmentEvent::Classified(answer),
            t,
            a,
        ) ==> t == SegmentState::Done && a == SegmentAction::Finish(
            Err(WorkerError(classifier_failure(err))),
        ) && classifier_failure(err).kind == ErrorKind::ClassifierFailure),
{
}

/// A `NoSplit` decision ends the run at once: nothing is drained from the
/// queue and no create job is pushed.
pub proof fn lemma_no_split_is_noop(
    cid: uuid::Uuid,
    recent: Vec<Message>,
    incoming: Message,
    t: SegmentState,
    a: SegmentAction,
)
    requires
        transition(
            cid,
            SegmentState::Deciding { recent, incoming },
            SegmentEvent::Rules(SegmentDecision::NoSplit),
            t,
            a,
        ),
    ensures
        t == SegmentState::Done,
        a == SegmentAction::Finish(Ok(())),
        !(a is Drain) && !(a is Push),
{
}

fn unexpected(stage: Stage) -> (r: (SegmentState, SegmentAction))
    ensures
        rejects(r.0, r.1),
{
    let err = AppError::new(ErrorKind::Validation, stage, "unexpected event".to_owned());
    (SegmentState::Done, SegmentAction::Finish(Err(WorkerError(err))))
}

impl SegmentJobRun {
    /// A new run, which first asks for a snapshot of the queue.
    pub fn start(job: MessageQueueSegmentJob) -> (r: (SegmentJobRun, SegmentAction))
        ensures
            r.0.conversation_id == job.conversation_id,
            r.0.state == SegmentState::Reading,
            r.1 == SegmentAction::ReadQueue,
    {
        (SegmentJobRun { conversation_id: job.conversation_id, state: SegmentState::Reading }, SegmentAction::ReadQueue)
    }

    /// Takes the outcome of the last outside step and says what to do next.
    pub fn step(self, event: SegmentEvent) -> (r: (SegmentJobRun, SegmentAction))
        ensures
            r.0.conversation_id == self.conversation_id,
            transition(self.conversation_id, self.state, event, r.0.state, r.1),
    {
        let cid = self.conversation_id;
        let (t, a) = match self.state {
            SegmentState::Reading => match event {
                SegmentEvent::Snapshot(mut ms) => match ms.pop() {
                    None => (SegmentState::Done, SegmentAction::Finish(Ok(()))),
                    Some(incoming) => {
                        let recent_out = crate::message::clone_messages(ms.as_slice());
                        let incoming_out = incoming.clone();
                        (
                            SegmentState::Deciding { recent: ms, incoming },
                            SegmentAction::RunRules { recent: recent_out, incoming: incoming_out },
                        )
                    },
                },
                _ => unexpected(Stage::Snapshot),
            },
            SegmentState::Deciding { recent, incoming } => match event {
                SegmentEvent::Rules(SegmentDecision::Split) => {
                    let n = recent.len();
                    (SegmentState::Draining { n }, SegmentAction::Drain(n))
                },
                SegmentEvent::Rules(SegmentDecision::NoSplit) => (
                    SegmentState::Done,
                    SegmentAction::Finish(Ok(())),
                ),
                SegmentEvent::Rules(SegmentDecision::CallLlm) => {
                    let recent_input = to_input_messages(recent.as_slice());
                    let incoming_input = to_input_message(&incoming);
                    (
                        SegmentState::Classifying { recent },
                        SegmentAction::Classify { recent: recent_input, incoming: incoming_input },
                    )
                },
                _ => unexpected(Stage::Rules),
            },
            SegmentState::Classifying { recent } => match event {
                SegmentEvent::Classified(Ok(split)) => if split {
                    let n = recent.len();
                    (SegmentState::Draining { n }, SegmentAction::Drain(n))
                } else {
                    (SegmentState::Done, SegmentAction::Finish(Ok(())))
                },
                SegmentEvent::Classified(Err(err)) => (
                    SegmentState::Done,
                    SegmentAction::Finish(Err(WorkerError(err.into_classifier_failure()))),
                ),
                _ => unexpected(Stage::Classify),
            },
            SegmentState::Draining { n } => match event {
                SegmentEvent::Drained(Ok(segment)) => if segment.len() == n {
                    (
                        SegmentState::Enqueuing,
                        SegmentAction::Push(
                            WorkerJob::Create(
                                CreateEpisodicMemoryJob {
                                    conversation_id: cid,
                                    segment_messages: segment,
                                },
                            ),
                        ),
                    )
                } else {
                    unexpected(Stage::Drain)
                },
                SegmentEvent::Drained(Err(err)) => (
                    SegmentState::Done,
                    SegmentAction::Finish(Err(WorkerError(err))),
                ),
                _ => unexpected(Stage::Drain),
            },
            SegmentState::Enqueuing => match event {
                SegmentEvent::Pushed(Ok(())) => (SegmentState::Done, SegmentAction::Finish(Ok(()))),
                SegmentEvent::Pushed(Err(err)) => (
                    SegmentState::Done,
                    SegmentAction::Finish(Err(WorkerError(err))),
                ),
                _ => unexpected(Stage::Enqueue),
            },
            SegmentState::Done => unexpected(Stage::Run),
        };
        (SegmentJobRun { conversation_id: cid, state: t }, a)
    }
}

} // verus!
