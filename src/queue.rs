use vstd::prelude::*;

use crate::message::Message;

verus! {

/// `uuid::Uuid` is carried through as an opaque conversation key.
#[verifier::external_type_specification]
#[verifier::external_body]
pub struct ExUuid(uuid::Uuid);

/// Why a drain was refused.
#[derive(PartialEq, Eq, Structural, Clone, Copy, Debug)]
pub enum QueueError {
    /// The queue held fewer messages than were asked for.
    InsufficientQueueLength { requested: usize, available: usize },
}

/// The messages of one conversation that no segment has taken yet, in append order.
#[derive(Debug)]
pub struct MessageQueue {
    pub conversation_id: uuid::Uuid,
    pub messages: Vec<Message>,
}

/// What an append does to the buffered messages.
pub open spec fn appended(q: Seq<Message>, m: Message) -> Seq<Message> {
    q.push(m)
}

/// What a drain of `n` does: the first `n` messages as the segment and the rest
/// as the new queue, or nothing at all when fewer than `n` are buffered.
pub open spec fn drained(q: Seq<Message>, n: nat) -> Option<(Seq<Message>, Seq<Message>)> {
    if n <= q.len() {
        Some((q.take(n as int), q.skip(n as int)))
    } else {
        None
    }
}

/// One step in the life of a conversation's queue.
pub enum QueueOp {
    Append(Message),
    Drain(usize),
}

/// Plays `ops` from an empty queue: the segments drained, in drain order, and
/// what is left buffered. A drain that is refused changes nothing.
pub open spec fn replay(ops: Seq<QueueOp>) -> (Seq<Seq<Message>>, Seq<Message>)
    decreases ops.len(),
{
    if ops.len() == 0 {
        (Seq::empty(), Seq::empty())
    } else {
        let (segments, q) = replay(ops.drop_last());
        match ops.last() {
            QueueOp::Append(m) => (segments, appended(q, m)),
            QueueOp::Drain(n) => match drained(q, n as nat) {
                Some((segment, rest)) => (segments.push(segment), rest),
                None => (segments, q),
            },
        }
    }
}

/// Every message appended by `ops`, in append order.
pub open spec fn append_history(ops: Seq<QueueOp>) -> Seq<Message>
    decreases ops.len(),
{
    if ops.len() == 0 {
        Seq::empty()
    } else {
        match ops.last() {
            QueueOp::Append(m) => append_history(ops.drop_last()).push(m),
            QueueOp::Drain(_) => append_history(ops.drop_last()),
        }
    }
}

/// The messages of `segments`, one segment after the other.
pub open spec fn concat(segments: Seq<Seq<Message>>) -> Seq<Message>
    decreases segments.len(),
{
    if segments.len() == 0 {
        Seq::empty()
    } else {
        concat(segments.drop_last()) + segments.last()
    }
}

/// Partition: however appends and drains interleave, the drained segments in
/// drain order followed by what is still buffered give back exactly the
/// appended messages in append order, none missing and none repeated.
pub proof fn lemma_partition(ops: Seq<QueueOp>)
    ensures
        concat(replay(ops).0) + replay(ops).1 == append_history(ops),
    decreases ops.len(),
{
    if ops.len() > 0 {
        let prefix = ops.drop_last();
        lemma_partition(prefix);
        let (segments, q) = replay(prefix);
        match ops.last() {
            QueueOp::Append(m) => {
                assert(concat(segments) + q.push(m) =~= (concat(segments) + q).push(m));
            },
            QueueOp::Drain(n) => {
                if n as nat <= q.len() {
                    let segment = q.take(n as int);
                    let rest = q.skip(n as int);
                    assert(segments.push(segment).drop_last() =~= segments);
                    assert(segment + rest =~= q);
                    assert(concat(segments) + segment + rest =~= concat(segments) + (segment
                        + rest));
                }
            },
        }
    }
}

impl MessageQueue {
    /// An empty queue for the given conversation.
    pub fn new(conversation_id: uuid::Uuid) -> (r: Self)
        ensures
            r.conversation_id == conversation_id,
            r.messages@ == Seq::<Message>::empty(),
    {
        MessageQueue { conversation_id, messages: Vec::new() }
    }

    /// Number of buffered messages.
    pub fn len(&self) -> (r: usize)
        ensures
            r == self.messages@.len(),
    {
        self.messages.len()
    }

    /// A copy of the buffered messages, with their number at the time of reading.
    pub fn snapshot(&self) -> (r: (Vec<Message>, usize))
        ensures
            r.0@ == self.messages@,
            r.1 == self.messages@.len(),
    {
        (crate::message::clone_messages(self.messages.as_slice()), self.messages.len())
    }

    /// Appends one message at the tail.
    pub fn append(&mut self, message: Message)
        ensures
            final(self).conversation_id == old(self).conversation_id,
            final(self).messages@ == appended(old(self).messages@, message),
    {
        self.messages.push(message);
    }

    /// Removes the first `n` messages and returns them, or refuses and leaves the
    /// queue as it was when fewer than `n` are buffered.
    pub fn drain(&mut self, n: usize) -> (r: Result<Vec<Message>, QueueError>)
        ensures
            final(self).conversation_id == old(self).conversation_id,
            r is Ok <==> n <= old(self).messages@.len(),
            r matches Ok(seg) ==> drained(old(self).messages@, n as nat) == Some(
                (seg@, final(self).messages@),
            ),
            r matches Err(e) ==> e == (QueueError::InsufficientQueueLength {
                requested: n,
                available: old(self).messages@.len() as usize,
            }) && final(self).messages@ == old(self).messages@,
    {
        let available = self.messages.len();
        if n > available {
            return Err(QueueError::InsufficientQueueLength { requested: n, available });
        }
        let mut segment = self.messages.split_off(n);
        std::mem::swap(&mut segment, &mut self.messages);
        assert(segment@ =~= old(self).messages@.take(n as int));
        assert(self.messages@ =~= old(self).messages@.skip(n as int));
        Ok(segment)
    }
}

} // verus!
