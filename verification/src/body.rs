//! The polymorphic body: one uniform poll-based contract over structurally
//! different backends.
//!
//! A [`Recv`] owns exactly one backend variant — empty, channel-fed or
//! protocol-native — as a closed tagged-variant type with case analysis per
//! operation; the backend set is fixed and small, so no dynamic dispatch
//! stands on the per-chunk path.

use vstd::prelude::*;

use crate::chan::Channel;
use crate::error::BodyError;
use crate::length::{hint_for, DeclaredLength, SizeHint};
use crate::native::{NativeBody, NativeStream, Recorder};
use crate::types::{Poll, Trailers};
use crate::want::DemandMode;

verus! {

/// The backend a body draws its items from.
#[derive(Clone, Debug, PartialEq, Eq)]
pub enum Kind {
    /// No data at all; immediately ended.
    Empty,
    /// Fed by a paired producer handle through the channel primitives.
    Chan(Channel),
    /// Backed by a protocol-native receive stream with flow control.
    H2(NativeBody),
}

/// A stream of byte chunks, used when receiving bodies.
///
/// All variants answer the same four questions: `poll_data`,
/// `poll_trailers`, `is_end_stream` and `size_hint`.
#[derive(Clone, Debug, PartialEq, Eq)]
pub struct Recv {
    /// The active backend.
    pub kind: Kind,
}

impl Recv {
    /// The invariant of a live body: a channel backend satisfies the channel
    /// invariants, and this body is its consumer, so the consumer handle is
    /// present.
    pub open spec fn wf(self) -> bool {
        match self.kind {
            Kind::Empty => true,
            Kind::Chan(c) => c.wf() && c.receiver_alive,
            Kind::H2(_) => true,
        }
    }

    /// Create a body with an associated producer: unknown length, eager
    /// demand. The producer half of the returned channel state is driven
    /// through the producer operations of [`Channel`].
    pub fn channel() -> (r: Recv)
        ensures
            r.kind == Kind::Chan(Channel::init(DeclaredLength::Unknown, DemandMode::Eager)),
            r.wf(),
    {
        Recv::new_channel(DeclaredLength::chunked(), DemandMode::Eager)
    }

    /// Create a channel-backed body with this declared length and demand
    /// mode.
    pub fn new_channel(content_length: DeclaredLength, mode: DemandMode) -> (r: Recv)
        ensures
            r.kind == Kind::Chan(Channel::init(content_length, mode)),
            r.wf(),
    {
        Recv { kind: Kind::Chan(Channel::new(content_length, mode)) }
    }

    /// Wrap an already-running channel state, so that a body can be driven
    /// against sends the producer has performed before the hand-over.
    pub fn from_channel(chan: Channel) -> (r: Recv)
        requires
            chan.wf(),
            chan.receiver_alive,
        ensures
            r.kind == Kind::Chan(chan),
            r.wf(),
    {
        Recv { kind: Kind::Chan(chan) }
    }

    /// The empty body: no data, immediately ended.
    pub fn empty() -> (r: Recv)
        ensures
            r.kind == Kind::Empty,
            r.wf(),
    {
        Recv { kind: Kind::Empty }
    }

    /// Wrap a protocol-native receive stream. If the declared length is not
    /// exact but the stream is already ended, the length is forced to the
    /// zero sentinel: an exact zero is more useful downstream than an
    /// unresolved unknown.
    pub fn h2(recv: NativeStream, content_length: DeclaredLength, recorder: Recorder) -> (r: Recv)
        ensures
            r.kind == Kind::H2(NativeBody {
                recv: recv,
                content_length: if !(content_length is Exact) && recv.ended() {
                    DeclaredLength::Exact(0u64)
                } else {
                    content_length
                },
                recorder: recorder,
            }),
            r.wf(),
    {
        let resolved = if !content_length.is_exact() && recv.is_end_stream() {
            DeclaredLength::zero()
        } else {
            content_length
        };
        Recv { kind: Kind::H2(NativeBody { recv, content_length: resolved, recorder }) }
    }

    /// Poll for the next data item, dispatched to the active backend. The
    /// empty body is done at once, with no suspension, and stays done.
    pub fn poll_data(&mut self) -> (r: Poll<Option<Result<Vec<u8>, BodyError>>>)
        requires
            old(self).wf(),
        ensures
            final(self).wf(),
            old(self).kind is Empty ==> r == Poll::Ready(
                None::<Result<Vec<u8>, BodyError>>,
            ) && *final(self) == *old(self),
            old(self).kind matches Kind::Chan(c) ==> r == c.poll_data_result() && final(self).kind
                == Kind::Chan(c.poll_data_transition()),
            old(self).kind matches Kind::H2(n) ==> {
                &&& r == n.poll_data_result()
                &&& final(self).kind is H2
                &&& final(self).kind->H2_0.recv.trailers == n.recv.trailers
                &&& (n.recv.frames@.len() == 0 ==> final(self).kind->H2_0.recv.frames@
                    == n.recv.frames@)
                &&& (n.recv.frames@.len() > 0 ==> final(self).kind->H2_0.recv.frames@
                    == n.recv.frames@.remove(0))
                &&& final(self).kind->H2_0.recv.released == crate::native::sat_add(
                    n.recv.released,
                    n.first_frame_bytes(),
                )
                &&& final(self).kind->H2_0.content_length == crate::length::sub_sat(
                    n.content_length,
                    n.first_frame_bytes(),
                )
                &&& final(self).kind->H2_0.recorder == (Recorder {
                    data_bytes: crate::native::sat_add(
                        n.recorder.data_bytes,
                        n.first_frame_bytes(),
                    ),
                    ..n.recorder
                })
            },
    {
        match &mut self.kind {
            Kind::Empty => Poll::Ready(None),
            Kind::Chan(chan) => chan.poll_data(),
            Kind::H2(native) => native.poll_data(),
        }
    }

    /// Poll for the trailer map, dispatched to the active backend. The empty
    /// body has none, with no suspension.
    pub fn poll_trailers(&mut self) -> (r: Poll<Result<Option<Trailers>, BodyError>>)
        requires
            old(self).wf(),
        ensures
            final(self).wf(),
            old(self).kind is Empty ==> r == Poll::Ready(
                Ok::<Option<Trailers>, BodyError>(None),
            ) && *final(self) == *old(self),
            old(self).kind matches Kind::Chan(c) ==> r == c.poll_trailers_result()
                && final(self).kind == Kind::Chan(c.poll_trailers_transition()),
            old(self).kind matches Kind::H2(n) ==> final(self).kind is H2
                && final(self).kind->H2_0.recv.trailers is Absent
                && final(self).kind->H2_0.content_length == n.content_length
                && final(self).kind->H2_0.recv.frames == n.recv.frames
                && final(self).kind->H2_0.recv.released == n.recv.released
                && final(self).kind->H2_0.recorder == (if n.recv.trailers is Malformed {
                n.recorder
            } else {
                Recorder {
                    non_data_events: crate::native::sat_add(n.recorder.non_data_events, 1u64),
                    ..n.recorder
                }
            }) && r == (
            match n.recv.trailers {
                crate::native::TrailerOutcome::Absent => Poll::Ready(
                    Ok::<Option<Trailers>, BodyError>(None),
                ),
                crate::native::TrailerOutcome::Present(t) => Poll::Ready(
                    Ok::<Option<Trailers>, BodyError>(Some(t)),
                ),
                crate::native::TrailerOutcome::Malformed => Poll::Ready(
                    Err::<Option<Trailers>, BodyError>(BodyError::ProtocolFrame),
                ),
            }),
    {
        match &mut self.kind {
            Kind::Empty => Poll::Ready(Ok(None)),
            Kind::Chan(chan) => chan.poll_trailers(),
            Kind::H2(native) => native.poll_trailers(),
        }
    }

    /// What the synchronous end query answers for each backend: the empty
    /// body is always ended; the channel backend is ended exactly when its
    /// declared length is the zero sentinel; the native backend defers to
    /// the stream's own end flag.
    pub open spec fn end_stream_spec(self) -> bool {
        match self.kind {
            Kind::Empty => true,
            Kind::Chan(c) => c.content_length == DeclaredLength::Exact(0u64),
            Kind::H2(n) => n.recv.ended(),
        }
    }

    /// The synchronous, non-suspending end query: usable to skip polling
    /// entirely when the stream is known empty.
    pub fn is_end_stream(&self) -> (r: bool)
        ensures
            r == self.end_stream_spec(),
    {
        match &self.kind {
            Kind::Empty => true,
            Kind::Chan(chan) => chan.is_end_stream(),
            Kind::H2(native) => native.is_end_stream(),
        }
    }

    /// The byte-count bound each backend justifies: exact zero for the empty
    /// body, and the declared length's bound for the others.
    pub open spec fn size_hint_spec(self) -> SizeHint {
        match self.kind {
            Kind::Empty => SizeHint { lower: 0u64, upper: Some(0u64) },
            Kind::Chan(c) => hint_for(c.content_length),
            Kind::H2(n) => hint_for(n.content_length),
        }
    }

    /// The lower/upper byte-count bound: exact when the declared length is
    /// exact, unbounded otherwise.
    pub fn size_hint(&self) -> (r: SizeHint)
        ensures
            r == self.size_hint_spec(),
    {
        match &self.kind {
            Kind::Empty => SizeHint::with_exact(0),
            Kind::Chan(chan) => chan.size_hint(),
            Kind::H2(native) => native.size_hint(),
        }
    }
}

} // verus!
