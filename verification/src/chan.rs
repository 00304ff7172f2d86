//! The channel-backed producer/consumer pair.
//!
//! A [`Channel`] models the composed state of the three primitives a paired
//! producer handle and channel-fed body share: the bounded (capacity-one)
//! data queue carrying `Result<chunk, error>` items, the one-shot trailer
//! slot, and the tri-state backpressure signal. Since both handles only ever
//! act on this shared state, the pair is specified as one state machine whose
//! operations are prefixed by the side that performs them: the producer calls
//! `poll_ready`, `send_data`, `try_send_data`, `send_trailers`, `abort` and
//! `send_error`; the consumer calls `poll_data` and `poll_trailers`; either
//! handle can be dropped at any time (`drop_sender`, `drop_receiver`). The
//! asynchronous runtime that parks and wakes the two sides performs exactly
//! these steps; parking of the producer is tracked so the wake-up rules can
//! be stated.

use vstd::prelude::*;

use crate::error::BodyError;
use crate::length::{hint_for, sub_sat, DeclaredLength, SizeHint};
use crate::types::{Poll, Trailers};
use crate::want::{initial_want, signalled_ready, DemandMode, WantState};

verus! {

/// The state of the one-shot trailer slot.
#[derive(Clone, Debug, PartialEq, Eq)]
pub enum TrailerSlot {
    /// The producer still holds the write end; nothing sent yet.
    Open,
    /// A trailer map was delivered and awaits the consumer.
    Sent(Trailers),
    /// The write end went away without a send.
    Dropped,
    /// The consumer took the delivered value.
    Taken,
}

/// One step of the producer's suspending send: either the chunk went out, or
/// the caller must retry with the returned chunk once woken, or the stream is
/// closed and the chunk is discarded as the suspending send discards it.
#[derive(Clone, Debug, PartialEq, Eq)]
pub enum SendStep {
    /// The chunk was enqueued.
    Sent,
    /// Not ready yet: the producer parks and retries with this same chunk.
    NotYet(Vec<u8>),
    /// The stream is closed; no retry can succeed.
    Failed(BodyError),
}

/// The shared state of a paired producer handle and channel-fed body.
#[derive(Clone, Debug, PartialEq, Eq)]
pub struct Channel {
    /// The backpressure signal, propagated consumer to producer.
    pub want: WantState,
    /// The single buffer slot of the bounded data queue.
    pub buffer: Option<Result<Vec<u8>, BodyError>>,
    /// The always-available injection path `abort` pushes through. Items in
    /// `buffer` are delivered first, so the bypass never reorders data.
    pub forced: Option<BodyError>,
    /// The one-shot trailer slot.
    pub trailer_slot: TrailerSlot,
    /// The producer handle has not been dropped or consumed.
    pub sender_alive: bool,
    /// The consumer handle has not been dropped.
    pub receiver_alive: bool,
    /// The producer is suspended in a readiness check, awaiting a wake.
    pub producer_parked: bool,
    /// Bytes still expected, decremented as chunks are observed.
    pub content_length: DeclaredLength,
}

impl Channel {
    /// The invariants every reachable channel state satisfies: the signal is
    /// closed exactly when the consumer is gone, the injection path is used
    /// only by the producer's final act, and a dropped producer has given up
    /// its trailer write end.
    pub open spec fn wf(self) -> bool {
        &&& self.want is Closed <==> !self.receiver_alive
        &&& self.sender_alive ==> self.forced is None
        &&& !self.sender_alive ==> !(self.trailer_slot is Open)
    }

    /// The state a freshly constructed pair starts in.
    pub open spec fn init(content_length: DeclaredLength, mode: DemandMode) -> Channel {
        Channel {
            want: initial_want(mode),
            buffer: None,
            forced: None,
            trailer_slot: TrailerSlot::Open,
            sender_alive: true,
            receiver_alive: true,
            producer_parked: false,
            content_length: content_length,
        }
    }

    /// Construct the paired producer/consumer system.
    pub fn new(content_length: DeclaredLength, mode: DemandMode) -> (c: Channel)
        ensures
            c == Channel::init(content_length, mode),
            c.wf(),
    {
        Channel {
            want: WantState::initial(mode),
            buffer: None,
            forced: None,
            trailer_slot: TrailerSlot::Open,
            sender_alive: true,
            receiver_alive: true,
            producer_parked: false,
            content_length,
        }
    }

    /// What one consumer data poll returns: the buffered item first, then a
    /// forced error, then end of stream once the producer is gone, else the
    /// consumer suspends.
    pub open spec fn poll_data_result(self) -> Poll<Option<Result<Vec<u8>, BodyError>>> {
        if self.buffer is Some {
            Poll::Ready(Some(self.buffer->Some_0))
        } else if self.forced is Some {
            Poll::Ready(Some(Err(self.forced->Some_0)))
        } else if !self.sender_alive {
            Poll::Ready(None)
        } else {
            Poll::Pending
        }
    }

    /// The declared length after one consumer data poll: the length of a
    /// yielded chunk is subtracted, saturating at zero.
    pub open spec fn length_after_poll(self) -> DeclaredLength {
        match self.buffer {
            Some(Ok(c)) => sub_sat(self.content_length, c@.len() as u64),
            _ => self.content_length,
        }
    }

    /// The state after one consumer data poll: the signal is set ready, a
    /// parked producer is woken, and whichever item was yielded leaves its
    /// slot.
    pub open spec fn poll_data_transition(self) -> Channel {
        Channel {
            want: signalled_ready(self.want),
            producer_parked: false,
            buffer: None,
            forced: if self.buffer is Some {
                self.forced
            } else {
                None
            },
            content_length: self.length_after_poll(),
            ..self
        }
    }

    /// The consumer polls for the next data item.
    ///
    /// First the backpressure signal is unconditionally set ready — this is
    /// what unblocks a lazy-mode producer, and it wakes a producer parked in
    /// a readiness check. Then the next queue item is taken: a chunk has its
    /// length subtracted from the declared length and is yielded; a forced
    /// error is yielded only after the buffered item; with the producer gone
    /// and nothing pending this is the end of the stream, and stays so on
    /// every later poll.
    pub fn poll_data(&mut self) -> (r: Poll<Option<Result<Vec<u8>, BodyError>>>)
        requires
            old(self).wf(),
            old(self).receiver_alive,
        ensures
            final(self).wf(),
            r == old(self).poll_data_result(),
            *final(self) == old(self).poll_data_transition(),
    {
        self.want.signal_ready();
        self.producer_parked = false;
        let item = self.buffer.take();
        match item {
            Some(Ok(chunk)) => {
                let n = chunk.len();
                self.content_length.saturating_subtract(n as u64);
                Poll::Ready(Some(Ok(chunk)))
            },
            Some(Err(e)) => Poll::Ready(Some(Err(e))),
            None => {
                let injected = self.forced.take();
                match injected {
                    Some(e) => Poll::Ready(Some(Err(e))),
                    None => {
                        if !self.sender_alive {
                            Poll::Ready(None)
                        } else {
                            Poll::Pending
                        }
                    },
                }
            },
        }
    }

    /// What one consumer trailer poll returns: a delivered trailer map is
    /// yielded once; a write end dropped without a send downgrades to "no
    /// trailers" by design, not to an error; while the producer still holds
    /// the write end the consumer suspends.
    pub open spec fn poll_trailers_result(self) -> Poll<Result<Option<Trailers>, BodyError>> {
        match self.trailer_slot {
            TrailerSlot::Open => Poll::Pending,
            TrailerSlot::Sent(t) => Poll::Ready(Ok(Some(t))),
            TrailerSlot::Dropped => Poll::Ready(Ok(None)),
            TrailerSlot::Taken => Poll::Ready(Ok(None)),
        }
    }

    /// The state after one consumer trailer poll: a delivered value is
    /// consumed exactly once; nothing else moves.
    pub open spec fn poll_trailers_transition(self) -> Channel {
        Channel {
            trailer_slot: if self.trailer_slot is Sent {
                TrailerSlot::Taken
            } else {
                self.trailer_slot
            },
            ..self
        }
    }

    /// The consumer polls for the trailer map. Polling does not touch the
    /// backpressure signal; only data polls signal demand.
    pub fn poll_trailers(&mut self) -> (r: Poll<Result<Option<Trailers>, BodyError>>)
        requires
            old(self).wf(),
            old(self).receiver_alive,
        ensures
            final(self).wf(),
            r == old(self).poll_trailers_result(),
            *final(self) == old(self).poll_trailers_transition(),
    {
        let mut slot = TrailerSlot::Taken;
        core::mem::swap(&mut self.trailer_slot, &mut slot);
        match slot {
            TrailerSlot::Open => {
                self.trailer_slot = TrailerSlot::Open;
                Poll::Pending
            },
            TrailerSlot::Sent(t) => Poll::Ready(Ok(Some(t))),
            TrailerSlot::Dropped => {
                self.trailer_slot = TrailerSlot::Dropped;
                Poll::Ready(Ok(None))
            },
            TrailerSlot::Taken => Poll::Ready(Ok(None)),
        }
    }

    /// The fast "already ended" query: true exactly when the declared length
    /// is the zero sentinel. Synchronous; no polling, no suspension.
    pub fn is_end_stream(&self) -> (r: bool)
        ensures
            r == (self.content_length == DeclaredLength::Exact(0u64)),
    {
        self.content_length.is_zero()
    }

    /// The byte-count bound: exact when the declared length is exact,
    /// unbounded otherwise.
    pub fn size_hint(&self) -> (r: SizeHint)
        ensures
            r == hint_for(self.content_length),
    {
        SizeHint::of_length(&self.content_length)
    }

    /// What the producer's two-phase readiness gate reports: a closed signal
    /// fails with the closed-stream error; a pending signal or an occupied
    /// buffer slot suspends; otherwise the producer may send.
    pub open spec fn poll_ready_result(self) -> Poll<Result<(), BodyError>> {
        match self.want {
            WantState::Closed => Poll::Ready(Err(BodyError::Closed)),
            WantState::Pending => Poll::Pending,
            WantState::Ready => if self.buffer is Some {
                Poll::Pending
            } else {
                Poll::Ready(Ok(()))
            },
        }
    }

    /// The state after a readiness check: the producer is parked exactly when
    /// the check suspended.
    pub open spec fn poll_ready_transition(self) -> Channel {
        Channel { producer_parked: self.poll_ready_result() is Pending, ..self }
    }

    /// The producer's non-blocking readiness gate. Phase one consults the
    /// backpressure signal; phase two asks the data queue for spare capacity.
    /// The queue having been abandoned is the same consumer-gone condition
    /// the signal reports, so both phases fail with the closed-stream error.
    pub fn poll_ready(&mut self) -> (r: Poll<Result<(), BodyError>>)
        requires
            old(self).wf(),
            old(self).sender_alive,
        ensures
            final(self).wf(),
            r == old(self).poll_ready_result(),
            *final(self) == old(self).poll_ready_transition(),
    {
        let r = match self.want {
            WantState::Closed => Poll::Ready(Err(BodyError::Closed)),
            WantState::Pending => Poll::Pending,
            WantState::Ready => {
                if self.buffer.is_some() {
                    Poll::Pending
                } else {
                    Poll::Ready(Ok(()))
                }
            },
        };
        self.producer_parked = r.is_pending();
        r
    }

    /// Whether a non-blocking enqueue succeeds: the consumer must still be
    /// there and the single buffer slot must be free. The backpressure signal
    /// is not consulted.
    pub open spec fn can_buffer(self) -> bool {
        self.receiver_alive && self.buffer is None
    }

    /// The producer enqueues a chunk without checking the backpressure
    /// signal. If the single buffer slot is occupied or the consumer is gone,
    /// the exact same chunk comes back unmodified and unsent — no data is
    /// silently lost — and the state is unchanged.
    pub fn try_send_data(&mut self, chunk: Vec<u8>) -> (r: Result<(), Vec<u8>>)
        requires
            old(self).wf(),
            old(self).sender_alive,
        ensures
            final(self).wf(),
            old(self).can_buffer() ==> r is Ok && *final(self) == (Channel {
                buffer: Some(Ok(chunk)),
                ..*old(self)
            }),
            !old(self).can_buffer() ==> r == Err::<(), Vec<u8>>(chunk)
                && *final(self) == *old(self),
    {
        if self.receiver_alive && self.buffer.is_none() {
            self.buffer = Some(Ok(chunk));
            Ok(())
        } else {
            Err(chunk)
        }
    }

    /// One step of the producer's suspending send: run the readiness gate
    /// and, if it allows, enqueue. A suspended gate hands the chunk back for
    /// the retry after the wake; a closed stream fails with the closed-stream
    /// error.
    pub fn send_data(&mut self, chunk: Vec<u8>) -> (r: SendStep)
        requires
            old(self).wf(),
            old(self).sender_alive,
        ensures
            final(self).wf(),
            old(self).poll_ready_result() is Pending ==> r == SendStep::NotYet(chunk)
                && *final(self) == old(self).poll_ready_transition(),
            old(self).poll_ready_result() matches Poll::Ready(Err(e)) ==> r == SendStep::Failed(e)
                && *final(self) == old(self).poll_ready_transition(),
            old(self).poll_ready_result() == Poll::Ready(Ok::<(), BodyError>(())) ==> r
                == SendStep::Sent && *final(self) == (Channel {
                buffer: Some(Ok(chunk)),
                producer_parked: false,
                ..*old(self)
            }),
    {
        match self.poll_ready() {
            Poll::Pending => SendStep::NotYet(chunk),
            Poll::Ready(Err(e)) => SendStep::Failed(e),
            Poll::Ready(Ok(())) => {
                match self.try_send_data(chunk) {
                    Ok(()) => SendStep::Sent,
                    Err(_) => {
                        // A ready gate means the signal is not closed — so by
                        // the invariant the consumer is present — and the
                        // buffer slot is free; the enqueue cannot be refused.
                        proof {
                            assert(false);
                        }
                        SendStep::Failed(BodyError::Closed)
                    },
                }
            },
        }
    }

    /// The producer delivers the trailer map, consuming the one-shot write
    /// end. It succeeds exactly when the write end is still held and the
    /// consumer is still there; a second call, or one after the consumer went
    /// away, fails with the closed-stream error and leaves the data side
    /// untouched.
    pub fn send_trailers(&mut self, trailers: Trailers) -> (r: Result<(), BodyError>)
        requires
            old(self).wf(),
            old(self).sender_alive,
        ensures
            final(self).wf(),
            old(self).trailer_slot is Open && old(self).receiver_alive ==> r is Ok && *final(self)
                == (Channel { trailer_slot: TrailerSlot::Sent(trailers), ..*old(self) }),
            old(self).trailer_slot is Open && !old(self).receiver_alive ==> r == Err::<
                (),
                BodyError,
            >(BodyError::Closed) && *final(self) == (Channel {
                trailer_slot: TrailerSlot::Dropped,
                ..*old(self)
            }),
            !(old(self).trailer_slot is Open) ==> r == Err::<(), BodyError>(BodyError::Closed)
                && *final(self) == *old(self),
    {
        let mut slot = TrailerSlot::Dropped;
        core::mem::swap(&mut self.trailer_slot, &mut slot);
        match slot {
            TrailerSlot::Open => {
                if self.receiver_alive {
                    self.trailer_slot = TrailerSlot::Sent(trailers);
                    Ok(())
                } else {
                    Err(BodyError::Closed)
                }
            },
            other => {
                self.trailer_slot = other;
                Err(BodyError::Closed)
            },
        }
    }

    /// The producer aborts the body in an abnormal fashion, consuming the
    /// handle. The abort error is pushed through the injection path, so it
    /// gets through even while the buffer slot is full, and anything already
    /// buffered is still delivered first. With the consumer already gone the
    /// push is discarded; either way this is the producer's last act.
    pub fn abort(&mut self)
        requires
            old(self).wf(),
            old(self).sender_alive,
        ensures
            final(self).wf(),
            *final(self) == (Channel {
                sender_alive: false,
                producer_parked: false,
                forced: if old(self).receiver_alive {
                    Some(BodyError::BodyWriteAborted)
                } else {
                    None
                },
                trailer_slot: if old(self).trailer_slot is Open {
                    TrailerSlot::Dropped
                } else {
                    old(self).trailer_slot
                },
                ..*old(self)
            }),
    {
        if self.receiver_alive {
            self.forced = Some(BodyError::BodyWriteAborted);
        }
        self.close_sender_side();
    }

    /// The producer injects a transport error into the data stream without
    /// going through the backpressure gate, for lower layers that must
    /// surface a fault to the consumer. A full slot or a gone consumer
    /// silently discards it.
    pub fn send_error(&mut self, err: BodyError)
        requires
            old(self).wf(),
            old(self).sender_alive,
        ensures
            final(self).wf(),
            old(self).can_buffer() ==> *final(self) == (Channel {
                buffer: Some(Err(err)),
                ..*old(self)
            }),
            !old(self).can_buffer() ==> *final(self) == *old(self),
    {
        if self.receiver_alive && self.buffer.is_none() {
            self.buffer = Some(Err(err));
        }
    }

    /// The producer handle is dropped without a message: a graceful,
    /// error-free end of stream for the paired body. Anything already
    /// buffered is still delivered before the end is observed.
    pub fn drop_sender(&mut self)
        requires
            old(self).wf(),
            old(self).sender_alive,
        ensures
            final(self).wf(),
            *final(self) == (Channel {
                sender_alive: false,
                producer_parked: false,
                trailer_slot: if old(self).trailer_slot is Open {
                    TrailerSlot::Dropped
                } else {
                    old(self).trailer_slot
                },
                ..*old(self)
            }),
    {
        self.close_sender_side();
    }

    /// The consumer handle is dropped: the backpressure signal becomes
    /// closed (terminal), a parked producer is woken, and the queue is
    /// abandoned, so the producer observes the closed-stream error on its
    /// next readiness check rather than blocking or panicking.
    pub fn drop_receiver(&mut self)
        requires
            old(self).wf(),
            old(self).receiver_alive,
        ensures
            final(self).wf(),
            *final(self) == (Channel {
                receiver_alive: false,
                want: WantState::Closed,
                producer_parked: false,
                buffer: None,
                forced: None,
                ..*old(self)
            }),
    {
        self.receiver_alive = false;
        self.want.close();
        self.producer_parked = false;
        self.buffer = None;
        self.forced = None;
    }

    /// Shared tail of `abort` and `drop_sender`: the producer handle goes
    /// away, giving up the trailer write end and any claim to a wake.
    fn close_sender_side(&mut self)
        ensures
            *final(self) == (Channel {
                sender_alive: false,
                producer_parked: false,
                trailer_slot: if old(self).trailer_slot is Open {
                    TrailerSlot::Dropped
                } else {
                    old(self).trailer_slot
                },
                ..*old(self)
            }),
    {
        self.sender_alive = false;
        self.producer_parked = false;
        let mut slot = TrailerSlot::Dropped;
        core::mem::swap(&mut self.trailer_slot, &mut slot);
        match slot {
            TrailerSlot::Open => {},
            other => {
                self.trailer_slot = other;
            },
        }
    }
}

} // verus!
