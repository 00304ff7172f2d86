//! The protocol-native backend of the body.
//!
//! The receive stream itself — its framing and its window accounting — is an
//! external collaborator; this module holds a stand-in for exactly the narrow
//! capability surface the body consumes (`poll_data`, `poll_trailers`,
//! `is_end_stream`, a flow-control handle that releases credit, and a
//! keepalive recorder), plus the verified per-frame bookkeeping the body
//! performs on top of it.

use vstd::prelude::*;

use crate::error::BodyError;
use crate::length::{hint_for, sub_sat, DeclaredLength, SizeHint};
use crate::types::{Poll, Trailers};

verus! {

/// An opaque failure of the receive stream. This layer wraps it without
/// inspecting it.
#[derive(Clone, Copy, Debug, PartialEq, Eq, Structural)]
pub struct StreamFault;

/// One scripted data event of the receive stream.
#[derive(Clone, Debug, PartialEq, Eq)]
pub enum FrameEvent {
    /// A data frame carrying these bytes.
    Data(Vec<u8>),
    /// A frame the stream reports as a fault.
    Corrupt,
}

/// What follows the data frames.
#[derive(Clone, Debug, PartialEq, Eq)]
pub enum TrailerOutcome {
    /// The stream ends without trailers.
    Absent,
    /// The stream delivers this trailer map.
    Present(Trailers),
    /// The trailer frame cannot be decoded.
    Malformed,
}

/// A saturating addition on a credit or event counter.
pub open spec fn sat_add(a: u64, b: u64) -> u64 {
    if a + b <= u64::MAX {
        (a + b) as u64
    } else {
        u64::MAX
    }
}

/// Add to a counter, stopping at the largest representable value.
fn saturating_add_u64(a: u64, b: u64) -> (r: u64)
    ensures
        r == sat_add(a, b),
{
    if a <= u64::MAX - b {
        a + b
    } else {
        u64::MAX
    }
}

/// A stand-in receive stream: a scripted sequence of data frames, what
/// follows them, and the flow-control credit released back to the peer.
#[derive(Clone, Debug, PartialEq, Eq)]
pub struct NativeStream {
    /// The data frames still to be delivered, in order.
    pub frames: Vec<FrameEvent>,
    /// What the stream yields once the data frames are exhausted.
    pub trailers: TrailerOutcome,
    /// Flow-control credit released back to the peer so far, saturating.
    pub released: u64,
}

impl NativeStream {
    /// A stream that will deliver these frames and then this trailer outcome.
    pub fn new(frames: Vec<FrameEvent>, trailers: TrailerOutcome) -> (r: NativeStream)
        ensures
            r.frames == frames,
            r.trailers == trailers,
            r.released == 0u64,
    {
        NativeStream { frames, trailers, released: 0 }
    }

    /// The next data event: the first scripted frame, or the end of the data
    /// once the script is exhausted.
    pub fn poll_data(&mut self) -> (r: Option<Result<Vec<u8>, StreamFault>>)
        ensures
            old(self).frames@.len() == 0 ==> r is None && *final(self) == *old(self),
            old(self).frames@.len() > 0 ==> {
                &&& final(self).frames@ == old(self).frames@.remove(0)
                &&& final(self).trailers == old(self).trailers
                &&& final(self).released == old(self).released
                &&& r == (match old(self).frames@[0] {
                    FrameEvent::Data(bytes) => Some(Ok::<Vec<u8>, StreamFault>(bytes)),
                    FrameEvent::Corrupt => Some(Err::<Vec<u8>, StreamFault>(StreamFault)),
                })
            },
    {
        if self.frames.len() == 0 {
            None
        } else {
            match self.frames.remove(0) {
                FrameEvent::Data(bytes) => Some(Ok(bytes)),
                FrameEvent::Corrupt => Some(Err(StreamFault)),
            }
        }
    }

    /// The trailer outcome, consumed once: a delivered map or its absence is
    /// reported, a malformed trailer frame is a fault.
    pub fn poll_trailers(&mut self) -> (r: Result<Option<Trailers>, StreamFault>)
        ensures
            final(self).frames == old(self).frames,
            final(self).released == old(self).released,
            final(self).trailers == TrailerOutcome::Absent,
            r == (match old(self).trailers {
                TrailerOutcome::Absent => Ok::<Option<Trailers>, StreamFault>(None),
                TrailerOutcome::Present(t) => Ok::<Option<Trailers>, StreamFault>(Some(t)),
                TrailerOutcome::Malformed => Err::<Option<Trailers>, StreamFault>(StreamFault),
            }),
    {
        let mut out = TrailerOutcome::Absent;
        core::mem::swap(&mut self.trailers, &mut out);
        match out {
            TrailerOutcome::Absent => Ok(None),
            TrailerOutcome::Present(t) => Ok(Some(t)),
            TrailerOutcome::Malformed => Err(StreamFault),
        }
    }

    /// The stream's own end flag: everything, trailers included, has been
    /// delivered.
    pub fn is_end_stream(&self) -> (r: bool)
        ensures
            r == self.ended(),
    {
        self.frames.len() == 0 && match self.trailers {
            TrailerOutcome::Absent => true,
            _ => false,
        }
    }

    /// Whether the stream has nothing left to deliver.
    pub open spec fn ended(self) -> bool {
        self.frames@.len() == 0 && self.trailers is Absent
    }

    /// The flow-control handle: release credit for consumed bytes back to
    /// the peer. Best-effort — the released total saturates rather than
    /// failing during teardown.
    pub fn release_capacity(&mut self, n: usize)
        ensures
            final(self).frames == old(self).frames,
            final(self).trailers == old(self).trailers,
            final(self).released == sat_add(old(self).released, n as u64),
    {
        self.released = saturating_add_u64(self.released, n as u64);
    }
}

/// A stand-in keepalive/ping recorder: it counts what it observes, so that
/// idle timers elsewhere can be reset on any activity.
#[derive(Clone, Copy, Debug, PartialEq, Eq, Structural)]
pub struct Recorder {
    /// Total payload bytes observed, saturating.
    pub data_bytes: u64,
    /// Non-data events (trailers and the like) observed, saturating.
    pub non_data_events: u64,
}

impl Recorder {
    /// A recorder that has seen nothing yet.
    pub fn new() -> (r: Recorder)
        ensures
            r == (Recorder { data_bytes: 0u64, non_data_events: 0u64 }),
    {
        Recorder { data_bytes: 0, non_data_events: 0 }
    }

    /// A data frame of `n` bytes was observed.
    pub fn record_data(&mut self, n: usize)
        ensures
            *final(self) == (Recorder {
                data_bytes: sat_add(old(self).data_bytes, n as u64),
                ..*old(self)
            }),
    {
        self.data_bytes = saturating_add_u64(self.data_bytes, n as u64);
    }

    /// A non-data event was observed.
    pub fn record_non_data(&mut self)
        ensures
            *final(self) == (Recorder {
                non_data_events: sat_add(old(self).non_data_events, 1u64),
                ..*old(self)
            }),
    {
        self.non_data_events = saturating_add_u64(self.non_data_events, 1);
    }
}

/// The protocol-native backend: the receive stream, the declared length, and
/// the shared keepalive recorder.
#[derive(Clone, Debug, PartialEq, Eq)]
pub struct NativeBody {
    /// The underlying receive stream.
    pub recv: NativeStream,
    /// Bytes still expected, decremented as frames are observed.
    pub content_length: DeclaredLength,
    /// The keepalive recorder fed on every observation.
    pub recorder: Recorder,
}

impl NativeBody {
    /// What one data poll yields: the next frame's bytes, a wrapped
    /// transport error for a faulty frame, or the end of the data.
    pub open spec fn poll_data_result(self) -> Poll<Option<Result<Vec<u8>, BodyError>>> {
        if self.recv.frames@.len() == 0 {
            Poll::Ready(None)
        } else {
            match self.recv.frames@[0] {
                FrameEvent::Data(bytes) => Poll::Ready(Some(Ok(bytes))),
                FrameEvent::Corrupt => Poll::Ready(Some(Err(BodyError::Transport))),
            }
        }
    }

    /// The byte count the first scripted frame carries, when it is a data
    /// frame; zero otherwise. This is the amount one successful poll books.
    pub open spec fn first_frame_bytes(self) -> u64 {
        if self.recv.frames@.len() > 0 {
            match self.recv.frames@[0] {
                FrameEvent::Data(bytes) => bytes@.len() as u64,
                FrameEvent::Corrupt => 0u64,
            }
        } else {
            0u64
        }
    }

    /// The body pulls the next frame from the receive stream. On a
    /// successful frame it immediately releases flow-control credit for the
    /// received byte count, subtracts the count from the declared length and
    /// feeds it to the keepalive recorder as data observed; a stream fault is
    /// wrapped into this layer's transport-error kind. A faulty or absent
    /// frame books nothing.
    pub fn poll_data(&mut self) -> (r: Poll<Option<Result<Vec<u8>, BodyError>>>)
        ensures
            r == old(self).poll_data_result(),
            final(self).recv.trailers == old(self).recv.trailers,
            old(self).recv.frames@.len() == 0 ==> final(self).recv.frames@ == old(self).recv.frames@,
            old(self).recv.frames@.len() > 0 ==> final(self).recv.frames@
                == old(self).recv.frames@.remove(0),
            final(self).recv.released == sat_add(
                old(self).recv.released,
                old(self).first_frame_bytes(),
            ),
            final(self).content_length == sub_sat(
                old(self).content_length,
                old(self).first_frame_bytes(),
            ),
            final(self).recorder == (Recorder {
                data_bytes: sat_add(old(self).recorder.data_bytes, old(self).first_frame_bytes()),
                ..old(self).recorder
            }),
    {
        match self.recv.poll_data() {
            None => Poll::Ready(None),
            Some(Ok(bytes)) => {
                let n = bytes.len();
                self.recv.release_capacity(n);
                self.content_length.saturating_subtract(n as u64);
                self.recorder.record_data(n);
                Poll::Ready(Some(Ok(bytes)))
            },
            Some(Err(_)) => Poll::Ready(Some(Err(BodyError::Transport))),
        }
    }

    /// The body delegates the trailer poll, wrapping a stream fault into the
    /// protocol-frame error; on success the keepalive recorder is fed a
    /// non-data observation, so idle timers reset on trailer arrival too.
    pub fn poll_trailers(&mut self) -> (r: Poll<Result<Option<Trailers>, BodyError>>)
        ensures
            final(self).recv.frames == old(self).recv.frames,
            final(self).recv.released == old(self).recv.released,
            final(self).recv.trailers == TrailerOutcome::Absent,
            final(self).content_length == old(self).content_length,
            r == (match old(self).recv.trailers {
                TrailerOutcome::Absent => Poll::Ready(Ok::<Option<Trailers>, BodyError>(None)),
                TrailerOutcome::Present(t) => Poll::Ready(
                    Ok::<Option<Trailers>, BodyError>(Some(t)),
                ),
                TrailerOutcome::Malformed => Poll::Ready(
                    Err::<Option<Trailers>, BodyError>(BodyError::ProtocolFrame),
                ),
            }),
            final(self).recorder == if old(self).recv.trailers is Malformed {
                old(self).recorder
            } else {
                (Recorder {
                    non_data_events: sat_add(old(self).recorder.non_data_events, 1u64),
                    ..old(self).recorder
                })
            },
    {
        match self.recv.poll_trailers() {
            Ok(t) => {
                self.recorder.record_non_data();
                Poll::Ready(Ok(t))
            },
            Err(_) => Poll::Ready(Err(BodyError::ProtocolFrame)),
        }
    }

    /// The end query delegates to the stream's own end flag.
    pub fn is_end_stream(&self) -> (r: bool)
        ensures
            r == self.recv.ended(),
    {
        self.recv.is_end_stream()
    }

    /// The byte-count bound justified by the declared length.
    pub fn size_hint(&self) -> (r: SizeHint)
        ensures
            r == hint_for(self.content_length),
    {
        SizeHint::of_length(&self.content_length)
    }
}

} // verus!
