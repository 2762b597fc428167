//! The programmable interrupt controller: the interrupt queue together with
//! the switch that holds interrupts back.

use crate::queue::{dequeued, enqueued, queue_text, Queue, QUEUE_CAPACITY};
use crate::text::{push_truth, truth};
use crate::Word;
use vstd::prelude::*;
use vstd::string::StringExecFns;

verus! {

/// Errors returned while interacting with the programmable interrupt
/// controller.
#[derive(Clone, Copy, Debug, PartialEq, Eq, Structural)]
pub enum InterruptError {
    /// Queue is empty during a dequeue.
    QueueEmpty,
    /// Queue is full during an enqueue.
    QueueFull,
    /// Queueing is enabled, so no interrupt may be triggered.
    Enabled,
}

/// Programmable interrupt controller.
///
/// Pending interrupt messages wait in a queue of at most 255. While queueing
/// is enabled they stay there; while it is disabled the processor takes them
/// one at a time. A controller starts empty with queueing disabled.
#[derive(Clone, Copy, Debug)]
pub struct PIC {
    interrupts: Queue,
    enabled: bool,
}

impl PIC {
    /// The pending messages, oldest first.
    pub closed spec fn pending(&self) -> Seq<Word> {
        self.interrupts@
    }

    /// Whether interrupts are being held back in the queue.
    pub closed spec fn queueing(&self) -> bool {
        self.enabled
    }

    /// A controller never holds more than 255 messages.
    pub proof fn lemma_len(&self)
        ensures
            self.pending().len() <= QUEUE_CAPACITY,
    {
        self.interrupts.lemma_len();
    }

    /// Creates an empty controller with queueing disabled.
    pub fn new() -> (pic: PIC)
        ensures
            pic.pending() == Seq::<Word>::empty(),
            !pic.queueing(),
    {
        PIC { interrupts: Queue::new(), enabled: false }
    }

    /// Whether no message is pending.
    pub fn is_empty(&self) -> (empty: bool)
        ensures
            empty == (self.pending().len() == 0),
            self.pending().len() <= QUEUE_CAPACITY,
    {
        self.interrupts.is_empty()
    }

    /// Whether as many messages are pending as the controller can hold.
    pub fn is_full(&self) -> (full: bool)
        ensures
            full == (self.pending().len() == QUEUE_CAPACITY),
            self.pending().len() <= QUEUE_CAPACITY,
    {
        self.interrupts.is_full()
    }

    /// Whether queueing is enabled.
    pub fn is_enabled(&self) -> (enabled: bool)
        ensures
            enabled == self.queueing(),
    {
        self.enabled
    }

    /// Whether queueing is disabled.
    pub fn is_disabled(&self) -> (disabled: bool)
        ensures
            disabled == !self.queueing(),
    {
        !self.enabled
    }

    /// Enables queueing. The pending messages stay.
    pub fn enable(&mut self)
        ensures
            final(self).queueing(),
            final(self).pending() == old(self).pending(),
    {
        self.enabled = true
    }

    /// Disables queueing. The pending messages stay.
    pub fn disable(&mut self)
        ensures
            !final(self).queueing(),
            final(self).pending() == old(self).pending(),
    {
        self.enabled = false
    }

    /// Appends `value` behind the pending messages.
    ///
    /// A full controller is left as it is and reports
    /// [`InterruptError::QueueFull`].
    pub fn enqueue(&mut self, value: Word) -> (result: Result<(), InterruptError>)
        ensures
            old(self).pending().len() <= QUEUE_CAPACITY,
            final(self).pending().len() <= QUEUE_CAPACITY,
            final(self).queueing() == old(self).queueing(),
            match enqueued(old(self).pending(), value) {
                Some(queue) => result == Ok::<(), InterruptError>(()) && final(self).pending()
                    == queue,
                None => result == Err::<(), InterruptError>(InterruptError::QueueFull)
                    && final(self).pending() == old(self).pending(),
            },
    {
        match self.interrupts.enqueue(value) {
            Ok(()) => Ok(()),
            Err(_) => Err(InterruptError::QueueFull),
        }
    }

    /// Takes the oldest pending message.
    ///
    /// An empty controller is left as it is and reports
    /// [`InterruptError::QueueEmpty`].
    pub fn dequeue(&mut self) -> (result: Result<Word, InterruptError>)
        ensures
            old(self).pending().len() <= QUEUE_CAPACITY,
            final(self).queueing() == old(self).queueing(),
            match dequeued(old(self).pending()) {
                Some((value, queue)) => result == Ok::<Word, InterruptError>(value)
                    && final(self).pending() == queue,
                None => result == Err::<Word, InterruptError>(InterruptError::QueueEmpty)
                    && final(self).pending() == old(self).pending(),
            },
    {
        match self.interrupts.dequeue() {
            Ok(value) => Ok(value),
            Err(_) => Err(InterruptError::QueueEmpty),
        }
    }

    /// Triggers the oldest pending interrupt: takes its message and enables
    /// queueing, so that the next one waits until the handler is done.
    ///
    /// While queueing is enabled nothing is triggered and the call reports
    /// [`InterruptError::Enabled`]; with queueing disabled and no message
    /// pending it reports [`InterruptError::QueueEmpty`]. Either way the
    /// controller is left as it is.
    pub fn trigger(&mut self) -> (result: Result<Word, InterruptError>)
        ensures
            old(self).pending().len() <= QUEUE_CAPACITY,
            old(self).queueing() ==> result == Err::<Word, InterruptError>(
                InterruptError::Enabled,
            ) && *final(self) == *old(self),
            !old(self).queueing() ==> match dequeued(old(self).pending()) {
                Some((value, queue)) => result == Ok::<Word, InterruptError>(value)
                    && final(self).pending() == queue && final(self).queueing(),
                None => result == Err::<Word, InterruptError>(InterruptError::QueueEmpty)
                    && *final(self) == *old(self),
            },
    {
        proof {
            self.lemma_len();
        }
        if self.enabled {
            return Err(InterruptError::Enabled);
        }
        if self.interrupts.is_empty() {
            return Err(InterruptError::QueueEmpty);
        }
        let result = self.dequeue();
        self.enabled = true;
        result
    }

    /// The controller as a line of text: whether queueing is enabled, and
    /// the pending messages, oldest first.
    pub open spec fn text(&self) -> Seq<char> {
        "PIC ( Enabled: "@ + truth(self.queueing()) + " Queue: "@ + queue_text(self.pending())
            + " )"@
    }

    /// Writes the controller out as a line of text; see [`PIC::text`].
    pub fn to_string(&self) -> (text: String)
        ensures
            text@ == self.text(),
    {
        let mut text = String::from_str("PIC ( Enabled: ");
        push_truth(&mut text, self.enabled);
        text.append(" Queue: ");
        self.interrupts.push_text(&mut text);
        text.append(" )");
        text
    }
}

} // verus!
