use vstd::prelude::*;

verus! {

/// Who spoke a message.
#[derive(PartialEq, Eq, Structural, Clone, Copy, Debug)]
pub enum MessageRole {
    User,
    Assistant,
}

/// One turn of a conversation: immutable once appended.
#[derive(Debug)]
pub struct Message {
    pub role: MessageRole,
    pub content: String,
}

impl Clone for Message {
    fn clone(&self) -> (r: Self)
        ensures
            r == *self,
    {
        Message { role: self.role, content: self.content.clone() }
    }
}

/// Copies a slice of messages, element for element.
pub fn clone_messages(ms: &[Message]) -> (r: Vec<Message>)
    ensures
        r@ == ms@,
{
    let mut r: Vec<Message> = Vec::new();
    let mut i: usize = 0;
    while i < ms.len()
        invariant
            i <= ms@.len(),
            r@ == ms@.subrange(0, i as int),
        decreases ms@.len() - i,
    {
        r.push(ms[i].clone());
        i = i + 1;
    }
    assert(r@ == ms@.subrange(0, ms@.len() as int));
    assert(ms@.subrange(0, ms@.len() as int) =~= ms@);
    r
}

} // verus!
