use vstd::prelude::*;
use std::collections::VecDeque;
use crate::console::Parser;
use crate::input::Event;

verus! {

/// Whether `pred`, called on every event of `q` before index `end`, said no.
pub open spec fn none_match_before<F: Fn(&Event) -> bool>(pred: F, q: Seq<Event>, end: int) -> bool {
    forall|j: int| 0 <= j < end ==> #[trigger] pred.ensures((&q[j],), false)
}

/// Removing the event at `i`, as `take_match` does, keeps every other event
/// of the queue, in its order: those before `i` where they were, those after
/// it one place earlier.
pub proof fn lemma_take_keeps_others(q: Seq<Event>, i: int)
    requires
        0 <= i < q.len(),
    ensures
        q.remove(i).len() == q.len() - 1,
        forall|j: int| 0 <= j < i ==> #[trigger] q.remove(i)[j] == q[j],
        forall|j: int| i < j < q.len() ==> q.remove(i)[j - 1] == #[trigger] q[j],
{
}

/// Events decoded and not yet consumed, oldest first. A caller may take the
/// first event that a filter accepts; every other event stays, in order.
pub struct EventQueue {
    events: VecDeque<Event>,
}

impl View for EventQueue {
    type V = Seq<Event>;

    closed spec fn view(&self) -> Seq<Event> {
        self.events@
    }
}

impl EventQueue {
    /// An empty queue.
    pub fn new() -> (r: EventQueue)
        ensures
            r@ == Seq::<Event>::empty(),
    {
        EventQueue { events: VecDeque::new() }
    }

    /// The number of events queued.
    pub fn len(&self) -> (r: usize)
        ensures
            r == self@.len(),
    {
        self.events.len()
    }

    /// Adds an event after all others.
    pub fn push(&mut self, event: Event)
        ensures
            final(self)@ == old(self)@.push(event),
    {
        self.events.push_back(event);
    }

    /// Moves every event that `parser` has decoded to the end of the queue, in order.
    pub fn fill_from(&mut self, parser: &mut Parser)
        ensures
            final(self)@ == old(self)@ + old(parser)@.events,
            final(parser)@.events == Seq::<Event>::empty(),
            final(parser)@.mode == old(parser)@.mode,
            final(parser)@.buffer == old(parser)@.buffer,
            final(parser)@.surrogate == old(parser)@.surrogate,
            final(parser)@.buttons == old(parser)@.buttons,
    {
        let ghost queue_start = self@;
        let ghost parser_start = parser@;
        loop
            invariant
                queue_start + parser_start.events == self@ + parser@.events,
                parser@.mode == parser_start.mode,
                parser@.buffer == parser_start.buffer,
                parser@.surrogate == parser_start.surrogate,
                parser@.buttons == parser_start.buttons,
            ensures
                self@ == queue_start + parser_start.events,
                parser@.events == Seq::<Event>::empty(),
                parser@.mode == parser_start.mode,
                parser@.buffer == parser_start.buffer,
                parser@.surrogate == parser_start.surrogate,
                parser@.buttons == parser_start.buttons,
            decreases parser@.events.len(),
        {
            let ghost before = parser@.events;
            match parser.pop_event() {
                Some(e) => {
                    self.events.push_back(e);
                    proof {
                        assert(before =~= seq![e] + parser@.events);
                        assert(queue_start + parser_start.events =~= self@ + parser@.events);
                    }
                },
                None => {
                    proof {
                        assert(queue_start + parser_start.events =~= self@);
                        assert(parser@.events =~= Seq::<Event>::empty());
                    }
                    break;
                },
            }
        }
    }

    /// Whether some queued event passes `pred`. Nothing is removed.
    pub fn has_match<F: Fn(&Event) -> bool>(&self, pred: &F) -> (r: bool)
        requires
            forall|e: &Event| #[trigger] pred.requires((e,)),
        ensures
            !r ==> none_match_before(*pred, self@, self@.len() as int),
            r ==> exists|i: int| 0 <= i < self@.len() && pred.ensures((&self@[i],), true),
    {
        let mut i: usize = 0;
        while i < self.events.len()
            invariant
                0 <= i <= self@.len(),
                forall|e: &Event| #[trigger] pred.requires((e,)),
                none_match_before(*pred, self@, i as int),
            decreases self@.len() - i,
        {
            if pred(&self.events[i]) {
                return true;
            }
            i = i + 1;
        }
        false
    }

    /// Removes and returns the oldest event that passes `pred`; the others
    /// stay in their order. `None`, with the queue unchanged, where none passes.
    pub fn take_match<F: Fn(&Event) -> bool>(&mut self, pred: &F) -> (r: Option<Event>)
        requires
            forall|e: &Event| #[trigger] pred.requires((e,)),
        ensures
            r is None ==> final(self)@ == old(self)@ && none_match_before(
                *pred,
                old(self)@,
                old(self)@.len() as int,
            ),
            r matches Some(e) ==> exists|i: int|
                0 <= i < old(self)@.len() && old(self)@[i] == e && pred.ensures((&e,), true)
                    && none_match_before(*pred, old(self)@, i) && final(self)@ == old(self)@.remove(i),
    {
        let mut i: usize = 0;
        while i < self.events.len()
            invariant
                0 <= i <= self@.len(),
                self@ == old(self)@,
                forall|e: &Event| #[trigger] pred.requires((e,)),
                none_match_before(*pred, self@, i as int),
            decreases self@.len() - i,
        {
            if pred(&self.events[i]) {
                return self.events.remove(i);
            }
            i = i + 1;
        }
        None
    }

    /// Removes every event.
    pub fn drain(&mut self)
        ensures
            final(self)@ == Seq::<Event>::empty(),
    {
        self.events.clear();
    }
}

/// What a wait for a matching event does next.
#[derive(Debug, Clone, Copy, PartialEq, Eq, Structural)]
pub enum PollAction {
    /// A queued event matches: the wait is over.
    Ready,
    /// The budget is used up with no match.
    TimedOut,
    /// Wait for more input, for at most this many nanoseconds (`None`: no limit).
    Wait(Option<u128>),
}

/// The next step of a wait for a matching event, given whether a queued
/// event matches and what is left of the budget.
pub fn poll_decision(matched: bool, leftover: Option<u128>) -> (r: PollAction)
    ensures
        matched ==> r == PollAction::Ready,
        !matched && leftover == Some(0u128) ==> r == PollAction::TimedOut,
        !matched && leftover != Some(0u128) ==> r == PollAction::Wait(leftover),
{
    if matched {
        PollAction::Ready
    } else {
        match leftover {
            Some(0) => PollAction::TimedOut,
            _ => PollAction::Wait(leftover),
        }
    }
}

} // verus!
