//! The buffer of events that wait for the next flush.

use crate::events::LogScaleLogEvent;
use vstd::prelude::*;

verus! {

/// The events that were appended and not yet drained, oldest first.
///
/// Producers append to it and the flush job drains it. Each operation is one
/// short step; a program that shares the buffer between threads runs each
/// under its lock, and holds the lock no longer.
pub struct LogsEventCache<E> {
    cached_log_events: Vec<E>,
}

impl<E> View for LogsEventCache<E> {
    type V = Seq<E>;

    /// The buffered events, oldest first.
    closed spec fn view(&self) -> Seq<E> {
        self.cached_log_events@
    }
}

impl<E> LogsEventCache<E> {
    /// An empty buffer.
    pub fn new() -> (cache: Self)
        ensures
            cache@ == Seq::<E>::empty(),
    {
        LogsEventCache { cached_log_events: Vec::new() }
    }

    pub fn is_empty(&self) -> (empty: bool)
        ensures
            empty <==> self@.len() == 0,
    {
        self.cached_log_events.is_empty()
    }

    /// The number of buffered events.
    pub fn len(&self) -> (count: usize)
        ensures
            count == self@.len(),
    {
        self.cached_log_events.len()
    }

    /// Appends one event behind those already buffered.
    pub fn add_log_event(&mut self, log_event: E)
        ensures
            final(self)@ == old(self)@.push(log_event),
    {
        self.cached_log_events.push(log_event);
    }

    /// Takes every buffered event out, in order, and leaves the buffer empty.
    ///
    /// The events change hands in one step: none is copied, and none stays
    /// behind to be taken a second time.
    pub fn drain(&mut self) -> (drained: Vec<E>)
        ensures
            drained@ == old(self)@,
            final(self)@ == Seq::<E>::empty(),
    {
        let mut drained: Vec<E> = Vec::new();
        std::mem::swap(&mut self.cached_log_events, &mut drained);
        drained
    }

    /// Discards every buffered event.
    pub fn clear(&mut self)
        ensures
            final(self)@ == Seq::<E>::empty(),
    {
        self.cached_log_events.clear();
    }
}

impl<E: LogScaleLogEvent> LogsEventCache<E> {
    /// A copy of the buffered events, in order. The buffer keeps them.
    pub fn get_log_events(&self) -> (log_events: Vec<E>)
        ensures
            log_events@ == self@,
    {
        let mut log_events: Vec<E> = Vec::new();
        let mut i: usize = 0;
        while i < self.cached_log_events.len()
            invariant
                i <= self.cached_log_events@.len(),
                log_events@ == self.cached_log_events@.take(i as int),
            decreases self.cached_log_events@.len() - i,
        {
            let copy = self.cached_log_events[i].duplicate();
            log_events.push(copy);
            i += 1;
        }
        log_events
    }
}

} // verus!
