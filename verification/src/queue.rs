//! The interrupt request queue: a bounded first-in, first-out buffer.

use crate::error::SystemError;
use crate::text::{hex, push_hex};
use crate::Word;
use vstd::prelude::*;
use vstd::string::StringExecFns;

verus! {

/// Number of slots in the ring that backs a queue.
pub const QUEUE_SLOTS: usize = 256;

/// The most messages a queue can hold: one slot of the ring stays free to
/// tell a full queue from an empty one.
pub const QUEUE_CAPACITY: usize = 255;

/// What a queue holds after `value` is enqueued behind `queue`, or `None`
/// where the queue is full.
pub open spec fn enqueued(queue: Seq<Word>, value: Word) -> Option<Seq<Word>> {
    if queue.len() < QUEUE_CAPACITY {
        Some(queue.push(value))
    } else {
        None
    }
}

/// The message that leaves `queue` on a dequeue and what the queue holds
/// afterwards, or `None` where the queue is empty.
pub open spec fn dequeued(queue: Seq<Word>) -> Option<(Word, Seq<Word>)> {
    if queue.len() > 0 {
        Some((queue[0], queue.drop_first()))
    } else {
        None
    }
}

/// What a queue holds after every value of `values` is enqueued in order, or
/// `None` where one did not fit.
pub open spec fn enqueued_all(queue: Seq<Word>, values: Seq<Word>) -> Option<Seq<Word>>
    decreases values.len(),
{
    if values.len() == 0 {
        Some(queue)
    } else {
        match enqueued(queue, values[0]) {
            Some(next) => enqueued_all(next, values.drop_first()),
            None => None,
        }
    }
}

/// The messages that `count` dequeues take from `queue`, in the order they
/// leave, and what the queue holds afterwards; `None` where the queue runs
/// empty first.
pub open spec fn dequeued_all(queue: Seq<Word>, count: nat) -> Option<(Seq<Word>, Seq<Word>)>
    decreases count,
{
    if count == 0 {
        Some((Seq::empty(), queue))
    } else {
        match dequeued(queue) {
            Some((first, rest)) => match dequeued_all(rest, (count - 1) as nat) {
                Some((taken, left)) => Some((seq![first] + taken, left)),
                None => None,
            },
            None => None,
        }
    }
}

/// The messages of a queue as text, oldest first: each as a blank, `0x`
/// and four hexadecimal digits.
pub open spec fn listing(queue: Seq<Word>) -> Seq<char>
    decreases queue.len(),
{
    if queue.len() == 0 {
        Seq::empty()
    } else {
        listing(queue.drop_last()) + " 0x"@ + hex(queue.last())
    }
}

/// A queue as text: its messages between square brackets, or the word
/// `empty`.
pub open spec fn queue_text(queue: Seq<Word>) -> Seq<char> {
    if queue.len() == 0 {
        "empty"@
    } else {
        "["@ + listing(queue) + " ]"@
    }
}

/// Enqueueing a run of values appends them in order if they all fit, and
/// fails if they do not.
pub proof fn lemma_enqueued_all(queue: Seq<Word>, values: Seq<Word>)
    requires
        queue.len() <= QUEUE_CAPACITY,
    ensures
        queue.len() + values.len() <= QUEUE_CAPACITY ==> enqueued_all(queue, values) == Some(
            queue + values,
        ),
        queue.len() + values.len() > QUEUE_CAPACITY ==> enqueued_all(queue, values).is_none(),
    decreases values.len(),
{
    if values.len() == 0 {
        assert(queue + values =~= queue);
    } else if queue.len() < QUEUE_CAPACITY {
        let next = queue.push(values[0]);
        lemma_enqueued_all(next, values.drop_first());
        assert(next + values.drop_first() =~= queue + values);
    }
}

/// Dequeueing takes messages from the front, oldest first.
pub proof fn lemma_dequeued_all(queue: Seq<Word>, count: nat)
    ensures
        count <= queue.len() ==> dequeued_all(queue, count) == Some(
            (queue.subrange(0, count as int), queue.subrange(count as int, queue.len() as int)),
        ),
        count > queue.len() ==> dequeued_all(queue, count).is_none(),
    decreases count,
{
    if count == 0 {
        assert(queue.subrange(0, 0) =~= Seq::empty());
        assert(queue.subrange(0, queue.len() as int) =~= queue);
    } else if queue.len() > 0 {
        let rest = queue.drop_first();
        lemma_dequeued_all(rest, (count - 1) as nat);
        if count <= queue.len() {
            assert(seq![queue[0]] + rest.subrange(0, count - 1) =~= queue.subrange(
                0,
                count as int,
            ));
            assert(rest.subrange(count - 1, rest.len() as int) =~= queue.subrange(
                count as int,
                queue.len() as int,
            ));
        }
    }
}

/// First in, first out: whatever is enqueued on an empty queue, up to its
/// capacity, comes out again in the same order and leaves the queue empty.
pub proof fn lemma_fifo(values: Seq<Word>)
    requires
        values.len() <= QUEUE_CAPACITY,
    ensures
        enqueued_all(Seq::empty(), values) == Some(values),
        dequeued_all(values, values.len()) == Some((values, Seq::<Word>::empty())),
{
    lemma_enqueued_all(Seq::empty(), values);
    assert(Seq::<Word>::empty() + values =~= values);
    lemma_dequeued_all(values, values.len());
    assert(values.subrange(0, values.len() as int) =~= values);
    assert(values.subrange(values.len() as int, values.len() as int) =~= Seq::<Word>::empty());
}

/// A message that is enqueued waits behind the ones that were there: on an
/// empty queue it is the next to leave and leaves the queue empty, as often
/// as that is repeated; otherwise the oldest leaves first, and the message
/// stays behind the rest.
pub proof fn lemma_turn(queue: Seq<Word>, value: Word)
    requires
        queue.len() < QUEUE_CAPACITY,
    ensures
        enqueued(queue, value) == Some(queue.push(value)),
        queue.len() == 0 ==> dequeued(queue.push(value)) == Some((value, queue)),
        queue.len() > 0 ==> dequeued(queue.push(value)) == Some(
            (queue[0], queue.drop_first().push(value)),
        ),
{
    if queue.len() == 0 {
        assert(queue.push(value).drop_first() =~= queue);
    } else {
        assert(queue.push(value).drop_first() =~= queue.drop_first().push(value));
    }
}

/// A full queue refuses one more message, and an empty one has none to give.
pub proof fn lemma_bounds(queue: Seq<Word>, value: Word)
    ensures
        queue.len() == QUEUE_CAPACITY ==> enqueued(queue, value).is_none(),
        queue.len() == 0 ==> dequeued(queue).is_none(),
{
}

/// Interrupt request queue.
///
/// A ring of 256 slots with a read and a write cursor that wrap around. The
/// queue is empty when the cursors meet and full when the write cursor is one
/// step behind the read cursor, so it holds at most 255 messages.
#[derive(Clone, Copy, Debug)]
pub struct Queue {
    interrupts: [Word; 256],
    write: u8,
    read: u8,
}

impl View for Queue {
    type V = Seq<Word>;

    /// The queued messages, oldest first.
    closed spec fn view(&self) -> Seq<Word> {
        Seq::new(
            ((self.write - self.read) % 256) as nat,
            |i: int| self.interrupts@[(self.read + i) % 256],
        )
    }
}

impl Queue {
    /// A queue never holds more than 255 messages.
    pub proof fn lemma_len(&self)
        ensures
            self@.len() <= QUEUE_CAPACITY,
    {
    }

    /// Creates an empty queue.
    pub fn new() -> (queue: Queue)
        ensures
            queue@ == Seq::<Word>::empty(),
    {
        let queue = Queue { interrupts: [0; 256], write: 0, read: 0 };
        assert(queue@ =~= Seq::<Word>::empty());
        queue
    }

    /// Whether the queue holds no message.
    pub fn is_empty(&self) -> (empty: bool)
        ensures
            empty == (self@.len() == 0),
            self@.len() <= QUEUE_CAPACITY,
    {
        self.read == self.write
    }

    /// Whether the queue holds as many messages as it can.
    pub fn is_full(&self) -> (full: bool)
        ensures
            full == (self@.len() == QUEUE_CAPACITY),
            self@.len() <= QUEUE_CAPACITY,
    {
        self.write.wrapping_add(1) == self.read
    }

    /// The number of queued messages.
    pub fn len(&self) -> (len: usize)
        ensures
            len == self@.len(),
            len <= QUEUE_CAPACITY,
    {
        self.write.wrapping_sub(self.read) as usize
    }

    /// Appends `value` behind the queued messages.
    ///
    /// A full queue is left as it is and reports
    /// [`SystemError::InterruptOverflow`].
    pub fn enqueue(&mut self, value: Word) -> (result: Result<(), SystemError>)
        ensures
            old(self)@.len() <= QUEUE_CAPACITY,
            final(self)@.len() <= QUEUE_CAPACITY,
            match enqueued(old(self)@, value) {
                Some(queue) => result == Ok::<(), SystemError>(()) && final(self)@ == queue,
                None => result == Err::<(), SystemError>(SystemError::InterruptOverflow)
                    && final(self)@ == old(self)@,
            },
    {
        if self.write.wrapping_add(1) == self.read {
            return Err(SystemError::InterruptOverflow);
        }
        self.interrupts[self.write as usize] = value;
        self.write = self.write.wrapping_add(1);
        assert(self@ =~= old(self)@.push(value));
        Ok(())
    }

    /// Takes the oldest message off the queue.
    ///
    /// An empty queue is left as it is and reports
    /// [`SystemError::InterruptUnderflow`].
    pub fn dequeue(&mut self) -> (result: Result<Word, SystemError>)
        ensures
            old(self)@.len() <= QUEUE_CAPACITY,
            match dequeued(old(self)@) {
                Some((value, queue)) => result == Ok::<Word, SystemError>(value) && final(self)@
                    == queue,
                None => result == Err::<Word, SystemError>(SystemError::InterruptUnderflow)
                    && final(self)@ == old(self)@,
            },
    {
        if self.read == self.write {
            return Err(SystemError::InterruptUnderflow);
        }
        let value = self.interrupts[self.read as usize];
        self.read = self.read.wrapping_add(1);
        assert(self@ =~= old(self)@.drop_first());
        Ok(value)
    }

    /// Appends the queue to a text; see [`queue_text`].
    pub fn push_text(&self, text: &mut String)
        ensures
            final(text)@ == old(text)@ + queue_text(self@),
    {
        let count = self.len();
        if count == 0 {
            text.append("empty");
            return ;
        }
        text.append("[");
        let ghost prefix = text@;
        assert(text@ =~= prefix + listing(self@.subrange(0, 0)));
        let mut i: usize = 0;
        while i < count
            invariant
                i <= count,
                count == self@.len(),
                count <= 255,
                text@ == prefix + listing(self@.subrange(0, i as int)),
            decreases count - i,
        {
            let value = self.interrupts[(self.read as usize + i) % 256];
            assert(value == self@[i as int]);
            text.append(" 0x");
            push_hex(text, value);
            i += 1;
            assert(self@.subrange(0, i as int).drop_last() =~= self@.subrange(0, i - 1));
            assert(text@ =~= prefix + listing(self@.subrange(0, i as int)));
        }
        assert(self@.subrange(0, count as int) =~= self@);
        text.append(" ]");
        assert(text@ =~= old(text)@ + queue_text(self@));
    }

    /// The queue as a line of text: its messages, oldest first.
    pub open spec fn text(&self) -> Seq<char> {
        "IRQ ( Queue: "@ + queue_text(self@) + " )"@
    }

    /// Writes the queue out as a line of text; see [`Queue::text`].
    pub fn to_string(&self) -> (text: String)
        ensures
            text@ == self.text(),
    {
        let mut text = String::from_str("IRQ ( Queue: ");
        self.push_text(&mut text);
        text.append(" )");
        text
    }
}

} // verus!
