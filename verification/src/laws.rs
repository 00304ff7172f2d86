//! The stream-level laws of the channel-backed body, each proved for every
//! input the constructors accept: any chunk contents, any declared length,
//! either demand mode.

use vstd::prelude::*;

use crate::body::Recv;
use crate::chan::Channel;
use crate::error::BodyError;
use crate::length::{DeclaredLength, SizeHint};
use crate::types::Poll;
use crate::want::DemandMode;

verus! {

/// Law: for any finite sequence of chunks sent and then the producer handle
/// dropped with no explicit end call, the body yields exactly that sequence
/// in order, then end of stream — and keeps reporting end of stream when
/// polled after completion.
pub fn law_chunks_then_drop_yield_in_order(
    chunks: Vec<Vec<u8>>,
    content_length: DeclaredLength,
    mode: DemandMode,
) -> (r: (
    Vec<Vec<u8>>,
    Poll<Option<Result<Vec<u8>, BodyError>>>,
    Poll<Option<Result<Vec<u8>, BodyError>>>,
))
    ensures
        r.0@ == chunks@,
        r.1 == Poll::Ready(None::<Result<Vec<u8>, BodyError>>),
        r.2 == Poll::Ready(None::<Result<Vec<u8>, BodyError>>),
{
    let ghost all = chunks@;
    let mut pending = chunks;
    let mut c = Channel::new(content_length, mode);
    let mut out: Vec<Vec<u8>> = Vec::new();
    while pending.len() > 0
        invariant
            c.wf(),
            c.sender_alive,
            c.receiver_alive,
            c.buffer is None,
            c.forced is None,
            out@ + pending@ == all,
        decreases pending.len(),
    {
        let chunk = pending.remove(0);
        let sent = c.try_send_data(chunk);
        assert(sent is Ok);
        let polled = c.poll_data();
        match polled {
            Poll::Ready(Some(Ok(got))) => {
                out.push(got);
            },
            _ => {
                assert(false);
            },
        }
        proof {
            assert(out@ + pending@ =~= all);
        }
    }
    c.drop_sender();
    let after = c.poll_data();
    let again = c.poll_data();
    proof {
        assert(out@ =~= all);
    }
    (out, after, again)
}

/// Law: with one chunk buffered and the body then aborted, the consumer
/// first receives the buffered chunk unchanged, then the abort error, then
/// end of stream — the forced bypass never reorders already-buffered data.
pub fn law_abort_delivers_buffered_chunk_first(
    chunk: Vec<u8>,
    content_length: DeclaredLength,
    mode: DemandMode,
) -> (r: (
    Poll<Option<Result<Vec<u8>, BodyError>>>,
    Poll<Option<Result<Vec<u8>, BodyError>>>,
    Poll<Option<Result<Vec<u8>, BodyError>>>,
))
    ensures
        r.0 == Poll::Ready(Some(Ok::<Vec<u8>, BodyError>(chunk))),
        r.1 == Poll::Ready(Some(Err::<Vec<u8>, BodyError>(BodyError::BodyWriteAborted))),
        r.2 == Poll::Ready(None::<Result<Vec<u8>, BodyError>>),
{
    let mut c = Channel::new(content_length, mode);
    let sent = c.try_send_data(chunk);
    assert(sent is Ok);
    c.abort();
    let first = c.poll_data();
    let second = c.poll_data();
    let third = c.poll_data();
    (first, second, third)
}

/// Law: the empty body answers both synchronous queries — ended, and exactly
/// zero bytes to come — with zero poll calls made.
pub fn law_empty_body_is_done_without_polling() -> (r: (bool, SizeHint))
    ensures
        r.0,
        r.1 == (SizeHint { lower: 0u64, upper: Some(0u64) }),
{
    let body = Recv::empty();
    (body.is_end_stream(), body.size_hint())
}

/// Law: in lazy demand mode the producer's readiness check stays pending
/// until the consumer performs a data poll; that poll wakes the parked
/// producer, and the next readiness check succeeds at once.
pub fn law_lazy_readiness_waits_for_first_poll(content_length: DeclaredLength) -> (r: (
    Poll<Result<(), BodyError>>,
    bool,
    Poll<Result<(), BodyError>>,
))
    ensures
        r.0 is Pending,
        !r.1,
        r.2 == Poll::Ready(Ok::<(), BodyError>(())),
{
    let mut c = Channel::new(content_length, DemandMode::Lazy);
    let before = c.poll_ready();
    let _ = c.poll_data();
    let parked = c.producer_parked;
    let after = c.poll_ready();
    (before, parked, after)
}

/// Law: dropping the consumer while the producer is suspended in a readiness
/// check wakes the producer, and its next readiness check reports the
/// closed-stream error rather than blocking.
pub fn law_consumer_drop_wakes_suspended_producer(content_length: DeclaredLength) -> (r: (
    Poll<Result<(), BodyError>>,
    bool,
    Poll<Result<(), BodyError>>,
))
    ensures
        r.0 is Pending,
        !r.1,
        r.2 == Poll::Ready(Err::<(), BodyError>(BodyError::Closed)),
{
    let mut c = Channel::new(content_length, DemandMode::Lazy);
    let before = c.poll_ready();
    assert(c.producer_parked);
    c.drop_receiver();
    let parked = c.producer_parked;
    let after = c.poll_ready();
    (before, parked, after)
}

} // verus!
