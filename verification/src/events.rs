//! Single-tick event channels.
//!
//! Two typed channels carry the core's signals: `CollisionWith`, written by
//! the proximity watcher, and `GameOver`, written by the collision reducer.
//! Each is writer-appended during a tick and drained or cleared by its one
//! consumer before the tick ends, so no event outlives the tick it was
//! written in.

use crate::state::GameState;
use vstd::prelude::*;

verus! {

/// The player touched another entity this tick.  Carries the contacted
/// entity's identifier, not ownership of the entity.
#[derive(Clone, Copy, PartialEq, Eq, Structural, Debug)]
pub struct CollisionWith {
    pub entity: u64,
}

/// The game should end this tick, moving to `target`.
#[derive(Clone, Copy, PartialEq, Eq, Structural, Debug)]
pub struct GameOver {
    pub target: GameState,
}

/// An ordered, writer-appended, per-tick-cleared event channel with a single
/// consumer.  Its view is the sequence of events enqueued this tick, oldest
/// first.
pub struct EventQueue<T> {
    items: Vec<T>,
}

impl<T> View for EventQueue<T> {
    type V = Seq<T>;

    closed spec fn view(&self) -> Seq<T> {
        self.items@
    }
}

impl<T> EventQueue<T> {
    /// An empty channel.
    pub fn new() -> (r: EventQueue<T>)
        ensures
            r@ == Seq::<T>::empty(),
    {
        EventQueue { items: Vec::new() }
    }

    /// The number of events currently enqueued.
    pub fn len(&self) -> (r: usize)
        ensures
            r == self@.len(),
    {
        self.items.len()
    }

    /// Whether no event is enqueued.
    pub fn is_empty(&self) -> (r: bool)
        ensures
            r == (self@.len() == 0),
    {
        self.items.is_empty()
    }

    /// Append an event; it becomes the newest entry of the channel.
    pub fn push(&mut self, ev: T)
        ensures
            final(self)@ == old(self)@.push(ev),
    {
        self.items.push(ev);
    }

    /// Read the event at position `i` (0 is the oldest).
    pub fn get(&self, i: usize) -> (r: &T)
        requires
            i < self@.len(),
        ensures
            *r == self@[i as int],
    {
        &self.items[i]
    }

    /// Discard every enqueued event.  The consumer calls this at the end of
    /// its drain so that nothing leaks into the next tick.
    pub fn clear(&mut self)
        ensures
            final(self)@ == Seq::<T>::empty(),
    {
        self.items.clear();
    }
}

impl<T: Copy> EventQueue<T> {
    /// The most recently enqueued event, if any.
    pub fn last(&self) -> (r: Option<T>)
        ensures
            self@.len() == 0 ==> r == Option::<T>::None,
            self@.len() > 0 ==> r == Option::Some(self@.last()),
    {
        if self.items.len() > 0 {
            Option::Some(self.items[self.items.len() - 1])
        } else {
            Option::None
        }
    }
}

} // verus!
