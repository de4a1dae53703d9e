use std::collections::VecDeque;
use vstd::prelude::*;

verus! {

/// Failure messages that wait to be shown, oldest first.
#[derive(Debug)]
pub struct ErrorQueue {
    entries: VecDeque<String>,
}

impl View for ErrorQueue {
    type V = Seq<Seq<char>>;

    closed spec fn view(&self) -> Seq<Seq<char>> {
        self.entries.deep_view()
    }
}

impl ErrorQueue {
    /// A queue without messages.
    pub fn new() -> (queue: ErrorQueue)
        ensures
            queue@ == Seq::<Seq<char>>::empty(),
    {
        let queue = ErrorQueue { entries: VecDeque::new() };
        queue
    }

    /// Appends `message` behind the messages that wait already.
    pub fn push(&mut self, message: String)
        ensures
            final(self)@ == old(self)@.push(message@),
    {
        self.entries.push_back(message);
    }

    /// The number of messages that wait.
    pub fn len(&self) -> (n: usize)
        ensures
            n == self@.len(),
    {
        self.entries.len()
    }

    /// Whether no message waits.
    pub fn is_empty(&self) -> (empty: bool)
        ensures
            empty == (self@.len() == 0),
    {
        self.entries.len() == 0
    }

    /// The oldest message, which is the one to show; `None` when no message
    /// waits.
    pub fn head(&self) -> (message: Option<&String>)
        ensures
            match message {
                Some(text) => self@.len() > 0 && text@ == self@[0],
                None => self@.len() == 0,
            },
    {
        if self.entries.len() > 0 {
            Some(&self.entries[0])
        } else {
            None
        }
    }

    /// Removes the oldest message, once it has been shown and dismissed,
    /// and hands it out; the others keep their order. Does nothing when no
    /// message waits.
    pub fn acknowledge(&mut self) -> (message: Option<String>)
        ensures
            match message {
                Some(text) => old(self)@.len() > 0 && text@ == old(self)@[0] && final(self)@ == old(
                    self,
                )@.skip(1),
                None => old(self)@.len() == 0 && final(self)@ == old(self)@,
            },
    {
        let message = self.entries.pop_front();
        message
    }
}

} // verus!
