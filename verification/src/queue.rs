//! The delivery queue: the one ordered hand-off between the receiver and the delivery worker.

use crate::command::{Command, CommandView};
use std::collections::VecDeque;
use vstd::prelude::*;

verus! {

/// Commands that wait for delivery, first in, first out. The queue has no bound: a command is
/// never refused. It holds every command once and changes none.
pub struct DeliveryQueue {
    waiting: VecDeque<Command>,
}

impl View for DeliveryQueue {
    type V = Seq<CommandView>;

    /// The waiting commands, the next to leave first.
    closed spec fn view(&self) -> Seq<CommandView> {
        self.waiting@.map_values(|c: Command| c@)
    }
}

impl DeliveryQueue {
    /// A queue with nothing in it.
    pub fn new() -> (queue: DeliveryQueue)
        ensures
            queue@ == Seq::<CommandView>::empty(),
    {
        DeliveryQueue { waiting: VecDeque::new() }
    }

    /// Puts a command at the end of the queue.
    pub fn enqueue(&mut self, command: Command)
        ensures
            final(self)@ == old(self)@.push(command@),
    {
        self.waiting.push_back(command);
    }

    /// Takes the command at the front of the queue, if there is one.
    pub fn dequeue(&mut self) -> (front: Option<Command>)
        ensures
            match front {
                Some(command) => old(self)@.len() > 0 && command@ == old(self)@[0] && final(self)@
                    == old(self)@.drop_first(),
                None => old(self)@.len() == 0 && final(self)@ == old(self)@,
            },
    {
        self.waiting.pop_front()
    }

    /// The number of waiting commands.
    pub fn len(&self) -> (n: usize)
        ensures
            n == self@.len(),
    {
        self.waiting.len()
    }

    /// Whether no command waits.
    pub fn is_empty(&self) -> (empty: bool)
        ensures
            empty == (self@.len() == 0),
    {
        self.waiting.len() == 0
    }
}

} // verus!
