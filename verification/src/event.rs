//! The asynchronous-to-synchronous input bridge: each host keyboard
//! event is decomposed into one input event per Unicode scalar of its
//! text payload and appended to an unbounded FIFO queue, which the
//! framework drains through a non-blocking poll.

use std::collections::VecDeque;

use vstd::prelude::*;

verus! {

/// One decoded unit of keyboard input: a single character.
#[derive(Clone, Copy, Debug, PartialEq, Eq, Structural)]
pub enum Event {
    Char(char),
}

/// The scalar at position `i` of a payload.
pub open spec fn char_at(text: Seq<char>, i: int) -> char {
    text[i]
}

/// The input events a host event's text payload decomposes into: one
/// per Unicode scalar, in the payload's order.
pub open spec fn decompose(text: Seq<char>) -> Seq<Event>
    decreases text.len(),
{
    if text.len() == 0 {
        Seq::empty()
    } else {
        decompose(text.drop_last()).push(Event::Char(char_at(text, text.len() - 1)))
    }
}

/// Decomposition keeps length and order: scalar `k` of the payload
/// becomes event `k`.
pub proof fn lemma_decompose(text: Seq<char>)
    ensures
        decompose(text).len() == text.len(),
        forall|k: int| 0 <= k < text.len() ==> decompose(text)[k] == Event::Char(text[k]),
    decreases text.len(),
{
    if text.len() > 0 {
        lemma_decompose(text.drop_last());
        let last = char_at(text, text.len() - 1);
        assert(decompose(text) == decompose(text.drop_last()).push(Event::Char(last)));
        assert forall|k: int| 0 <= k < text.len() implies decompose(text)[k] == Event::Char(
            text[k],
        ) by {
            if k < text.len() - 1 {
                assert(decompose(text)[k] == decompose(text.drop_last())[k]);
                assert(text.drop_last()[k] == text[k]);
            } else {
                assert(decompose(text)[k] == Event::Char(last));
            }
        }
    }
}

/// The queue after a host event with the given text payload: the
/// decomposed events appended at the tail.
pub open spec fn spec_enqueue(q: Seq<Event>, text: Seq<char>) -> Seq<Event> {
    q + decompose(text)
}

/// What a poll returns: the oldest queued event, or the no-event
/// sentinel `None` when the queue is empty.
pub open spec fn spec_poll_result(q: Seq<Event>) -> Option<Event> {
    if q.len() == 0 {
        None
    } else {
        Some(q[0])
    }
}

/// The queue a poll leaves behind: one event shorter, or unchanged
/// when it was already empty.
pub open spec fn spec_poll_rest(q: Seq<Event>) -> Seq<Event> {
    if q.len() == 0 {
        q
    } else {
        q.drop_first()
    }
}

/// The FIFO queue between the host's input callback (the producer) and
/// the framework's poll loop (the consumer).
pub struct EventBridge {
    events: VecDeque<Event>,
}

impl View for EventBridge {
    type V = Seq<Event>;

    closed spec fn view(&self) -> Seq<Event> {
        self.events@
    }
}

impl EventBridge {
    /// An empty queue.
    pub fn new() -> (r: Self)
        ensures
            r@ == Seq::<Event>::empty(),
    {
        EventBridge { events: VecDeque::new() }
    }

    /// Takes one host event's text payload, decomposes it into one
    /// event per Unicode scalar, and appends them all at the tail, in
    /// the payload's order.
    pub fn on_host_event(&mut self, text: &str)
        ensures
            final(self)@ == spec_enqueue(old(self)@, text@),
    {
        let n = text.unicode_len();
        proof {
            assert(spec_enqueue(old(self)@, text@.subrange(0, 0)) =~= old(self)@);
        }
        let mut i: usize = 0;
        while i < n
            invariant
                i <= n,
                n == text@.len(),
                self@ == spec_enqueue(old(self)@, text@.subrange(0, i as int)),
            decreases n - i,
        {
            let c = text.get_char(i);
            self.events.push_back(Event::Char(c));
            proof {
                let prefix = text@.subrange(0, i + 1);
                assert(prefix.drop_last() =~= text@.subrange(0, i as int));
                assert(char_at(prefix, i as int) == c);
                assert(decompose(prefix) == decompose(text@.subrange(0, i as int)).push(
                    Event::Char(c),
                ));
                assert(self@ =~= spec_enqueue(old(self)@, prefix));
            }
            i += 1;
        }
        proof {
            assert(text@.subrange(0, n as int) =~= text@);
        }
    }

    /// Removes and returns the oldest queued event; on an empty queue
    /// it returns the no-event sentinel `None` and leaves the queue as
    /// it is. It never blocks and never fails.
    pub fn poll(&mut self) -> (r: Option<Event>)
        ensures
            r == spec_poll_result(old(self)@),
            final(self)@ == spec_poll_rest(old(self)@),
    {
        self.events.pop_front()
    }
}

/// FIFO ordering law: starting from an empty queue, after two host
/// events each carrying one scalar, the first poll returns the first
/// event, the next poll returns the second, and the queue is then
/// empty again.
pub proof fn lemma_fifo_order(t1: Seq<char>, t2: Seq<char>)
    requires
        t1.len() == 1,
        t2.len() == 1,
    ensures
        ({
            let q = spec_enqueue(spec_enqueue(Seq::<Event>::empty(), t1), t2);
            &&& spec_poll_result(q) == Some(Event::Char(t1[0]))
            &&& spec_poll_result(spec_poll_rest(q)) == Some(Event::Char(t2[0]))
            &&& spec_poll_rest(spec_poll_rest(q)).len() == 0
        }),
{
    lemma_decompose(t1);
    lemma_decompose(t2);
    let q1 = spec_enqueue(Seq::<Event>::empty(), t1);
    let q = spec_enqueue(q1, t2);
    assert(q[0] == decompose(t1)[0]);
    assert(q[1] == decompose(t2)[0]);
    assert(spec_poll_rest(q)[0] == q[1]);
}

/// Multi-scalar decomposition law: one host event never reorders or
/// drops input. It appends exactly one event per scalar of its text, at
/// the tail, the event for scalar `k` standing `k` places after the old
/// tail — so a two-scalar payload queues its two characters in order.
pub proof fn lemma_decompose_order(q: Seq<Event>, text: Seq<char>)
    ensures
        spec_enqueue(q, text).len() == q.len() + text.len(),
        forall|k: int| 0 <= k < q.len() ==> spec_enqueue(q, text)[k] == q[k],
        forall|k: int|
            0 <= k < text.len() ==> spec_enqueue(q, text)[q.len() + k] == Event::Char(text[k]),
{
    lemma_decompose(text);
    assert forall|k: int|
        0 <= k < text.len() implies spec_enqueue(q, text)[q.len() + k] == Event::Char(
        text[k],
    ) by {
        assert(spec_enqueue(q, text)[q.len() + k] == decompose(text)[k]);
    }
}

} // verus!
