//! Small carrier types shared by the body backends.

use vstd::prelude::*;

verus! {

/// The outcome of one non-blocking poll step.
///
/// `Pending` means the caller is to be rescheduled and must poll again later;
/// no thread is ever blocked. In the model each poll is one deterministic
/// step of the state machine.
#[derive(Clone, Copy, Debug, PartialEq, Eq)]
pub enum Poll<T> {
    /// The operation finished with this value.
    Ready(T),
    /// Not yet: the caller suspends and is woken later.
    Pending,
}

impl<T> Poll<T> {
    /// True exactly when the poll finished.
    pub fn is_ready(&self) -> (r: bool)
        ensures
            r == (*self is Ready),
    {
        match self {
            Poll::Ready(_) => true,
            Poll::Pending => false,
        }
    }

    /// True exactly when the poll suspended.
    pub fn is_pending(&self) -> (r: bool)
        ensures
            r == (*self is Pending),
    {
        match self {
            Poll::Ready(_) => false,
            Poll::Pending => true,
        }
    }
}

/// A trailer map: header-like metadata delivered after all data chunks.
///
/// This core only transfers trailers; it never inspects them, so names and
/// values are opaque byte strings kept in insertion order.
#[derive(Clone, Debug, PartialEq, Eq)]
pub struct Trailers {
    /// The name/value pairs, in insertion order.
    pub entries: Vec<(Vec<u8>, Vec<u8>)>,
}

impl Trailers {
    /// An empty trailer map.
    pub fn new() -> (r: Trailers)
        ensures
            r.entries@.len() == 0,
    {
        Trailers { entries: Vec::new() }
    }

    /// Append one name/value pair.
    pub fn push(&mut self, name: Vec<u8>, value: Vec<u8>)
        ensures
            final(self).entries@ == old(self).entries@.push((name, value)),
    {
        self.entries.push((name, value));
    }

    /// How many pairs the map holds.
    pub fn len(&self) -> (r: usize)
        ensures
            r == self.entries@.len(),
    {
        self.entries.len()
    }
}

} // verus!
