//! The decisions of a stream that merges a strong and a weak stream: it yields the items
//! of either stream as they become available, polling the two in turns, passes errors on
//! one at a time, and ends when the strong stream ends.
use vstd::prelude::*;

verus! {

/// What one poll of a stream gave.
#[derive(Debug)]
pub enum StreamPoll<T, E> {
    /// An item.
    Item(T),
    /// The stream has ended.
    End,
    /// Nothing yet.
    NotReady,
    /// The stream failed.
    Error(E),
}

/// Which stream a poll of the merged stream tries first.
#[derive(Debug, PartialEq, Eq, Structural)]
pub enum Turn {
    /// The weak stream first, then the strong one.
    WeakFirst,
    /// The strong stream first, then the weak one.
    StrongFirst,
}

/// The state of the merge of a strong stream `S1` and a weak stream `S2`.
#[derive(Debug)]
pub struct SelectWithWeak<S1, S2> {
    strong: S1,
    weak: S2,
    use_strong: bool,
    weak_done: bool,
}

/// Merges a strong and a weak stream; the merge starts with the weak stream's turn.
pub fn select_with_weak<S1, S2>(strong: S1, weak: S2) -> (merged: SelectWithWeak<S1, S2>)
    ensures
        merged.strong_stream() == strong,
        merged.weak_stream() == weak,
        !merged.strong_turn(),
        !merged.weak_finished(),
{
    SelectWithWeak { strong, weak, use_strong: false, weak_done: false }
}

impl<S1, S2> SelectWithWeak<S1, S2> {
    /// The strong stream.
    pub closed spec fn strong_stream(&self) -> S1 {
        self.strong
    }

    /// The weak stream.
    pub closed spec fn weak_stream(&self) -> S2 {
        self.weak
    }

    /// Whether the next poll starts with the strong stream.
    pub closed spec fn strong_turn(&self) -> bool {
        self.use_strong
    }

    /// Whether the weak stream has reported its end.
    pub closed spec fn weak_finished(&self) -> bool {
        self.weak_done
    }

    /// The strong stream, to poll it.
    pub fn strong(&mut self) -> (strong: &mut S1)
        ensures
            *strong == old(self).strong_stream(),
            final(self).strong_stream() == *final(strong),
            final(self).weak_stream() == old(self).weak_stream(),
            final(self).strong_turn() == old(self).strong_turn(),
            final(self).weak_finished() == old(self).weak_finished(),
    {
        &mut self.strong
    }

    /// The weak stream, to poll it.
    pub fn weak(&mut self) -> (weak: &mut S2)
        ensures
            *weak == old(self).weak_stream(),
            final(self).weak_stream() == *final(weak),
            final(self).strong_stream() == old(self).strong_stream(),
            final(self).strong_turn() == old(self).strong_turn(),
            final(self).weak_finished() == old(self).weak_finished(),
    {
        &mut self.weak
    }

    /// Starts a poll: returns which stream goes first this time, and hands the first turn
    /// to the other stream for the next poll.
    pub fn start_poll(&mut self) -> (turn: Turn)
        ensures
            turn == (if old(self).strong_turn() { Turn::StrongFirst } else { Turn::WeakFirst }),
            final(self).strong_turn() == !old(self).strong_turn(),
            final(self).weak_finished() == old(self).weak_finished(),
            final(self).strong_stream() == old(self).strong_stream(),
            final(self).weak_stream() == old(self).weak_stream(),
    {
        if !self.use_strong {
            self.use_strong = true;
            Turn::WeakFirst
        } else {
            self.use_strong = false;
            Turn::StrongFirst
        }
    }

    /// Whether the weak stream is polled in its turn: as long as it has not ended. Once it
    /// has ended, its turn answers "not ready" and only the strong stream is polled.
    pub fn weak_may_be_polled(&self) -> (poll: bool)
        ensures
            poll == !self.weak_finished(),
    {
        !self.weak_done
    }

    /// Takes what the weak stream gave: its end is recorded and hidden as "not ready",
    /// since only the strong stream ends the merge; anything else is passed on.
    pub fn after_weak_poll<T, E>(&mut self, polled: StreamPoll<T, E>) -> (result: StreamPoll<T, E>)
        ensures
            polled is End ==> result is NotReady && final(self).weak_finished(),
            !(polled is End) ==> result == polled && final(self).weak_finished() == old(self).weak_finished(),
            final(self).strong_turn() == old(self).strong_turn(),
            final(self).strong_stream() == old(self).strong_stream(),
            final(self).weak_stream() == old(self).weak_stream(),
    {
        match polled {
            StreamPoll::End => {
                self.weak_done = true;
                StreamPoll::NotReady
            },
            other => other,
        }
    }
}

/// Whether the second stream of a poll is to be tried: only when the first had nothing.
pub fn try_second<T, E>(first: &StreamPoll<T, E>) -> (second: bool)
    ensures
        second == (*first is NotReady),
{
    match first {
        StreamPoll::NotReady => true,
        _ => false,
    }
}

} // verus!
