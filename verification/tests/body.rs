use recv_body::body::{Kind, Recv};
use recv_body::chan::Channel;
use recv_body::error::BodyError;
use recv_body::laws;
use recv_body::length::{DeclaredLength, SizeHint};
use recv_body::native::{FrameEvent, NativeStream, Recorder, TrailerOutcome};
use recv_body::types::Poll;
use recv_body::want::DemandMode;

#[test]
fn size_hint() {
    fn eq(body: Recv, b: SizeHint, note: &str) {
        let a = body.size_hint();
        assert_eq!(a.lower(), b.lower(), "lower for {:?}", note);
        assert_eq!(a.upper(), b.upper(), "upper for {:?}", note);
    }

    eq(Recv::empty(), SizeHint::with_exact(0), "empty");

    eq(Recv::channel(), SizeHint::new(), "channel");

    eq(
        Recv::new_channel(DeclaredLength::new(4), DemandMode::Eager),
        SizeHint::with_exact(4),
        "channel with length",
    );
}

#[test]
fn empty_body_is_done_at_once() {
    let mut body = Recv::empty();
    assert!(body.is_end_stream());
    assert_eq!(body.size_hint().lower(), 0);
    assert_eq!(body.size_hint().upper(), Some(0));
    assert_eq!(body.poll_data(), Poll::Ready(None));
    assert_eq!(body.poll_trailers(), Poll::Ready(Ok(None)));
}

#[test]
fn channel_body_streams_data() {
    let mut ch = Channel::new(DeclaredLength::new(4), DemandMode::Eager);
    ch.try_send_data(b"data".to_vec()).expect("send");
    ch.drop_sender();

    let mut body = Recv::from_channel(ch);
    assert_eq!(body.size_hint().upper(), Some(4));
    assert!(!body.is_end_stream());
    assert_eq!(body.poll_data(), Poll::Ready(Some(Ok(b"data".to_vec()))));
    assert!(body.is_end_stream(), "declared length consumed");
    assert_eq!(body.poll_data(), Poll::Ready(None));
}

#[test]
fn h2_body_books_every_frame() {
    let frames = vec![
        FrameEvent::Data(b"hello".to_vec()),
        FrameEvent::Data(b" world".to_vec()),
    ];
    let stream = NativeStream::new(frames, TrailerOutcome::Absent);
    let mut body = Recv::h2(stream, DeclaredLength::new(11), Recorder::new());

    assert_eq!(body.size_hint().upper(), Some(11));
    assert_eq!(body.poll_data(), Poll::Ready(Some(Ok(b"hello".to_vec()))));
    assert_eq!(body.poll_data(), Poll::Ready(Some(Ok(b" world".to_vec()))));
    assert_eq!(body.poll_data(), Poll::Ready(None));
    assert!(body.is_end_stream());

    match body.kind {
        Kind::H2(native) => {
            // Flow-control credit was released for every received byte, the
            // declared length ran down to zero, and the keepalive recorder
            // saw all the data.
            assert_eq!(native.recv.released, 11);
            assert_eq!(native.content_length, DeclaredLength::Exact(0));
            assert_eq!(native.recorder.data_bytes, 11);
        }
        other => panic!("expected the native backend, got {:?}", other),
    }
}

#[test]
fn h2_corrupt_frame_becomes_transport_error() {
    let frames = vec![FrameEvent::Corrupt];
    let stream = NativeStream::new(frames, TrailerOutcome::Absent);
    let mut body = Recv::h2(stream, DeclaredLength::chunked(), Recorder::new());

    assert_eq!(
        body.poll_data(),
        Poll::Ready(Some(Err(BodyError::Transport)))
    );
}

#[test]
fn h2_trailers_feed_the_recorder() {
    let mut trailers = recv_body::types::Trailers::new();
    trailers.push(b"status".to_vec(), b"ok".to_vec());
    let stream = NativeStream::new(Vec::new(), TrailerOutcome::Present(trailers.clone()));
    let mut body = Recv::h2(stream, DeclaredLength::chunked(), Recorder::new());

    assert_eq!(body.poll_trailers(), Poll::Ready(Ok(Some(trailers))));
    match body.kind {
        Kind::H2(native) => assert_eq!(native.recorder.non_data_events, 1),
        other => panic!("expected the native backend, got {:?}", other),
    }
}

#[test]
fn h2_malformed_trailers_become_protocol_frame_error() {
    let stream = NativeStream::new(Vec::new(), TrailerOutcome::Malformed);
    let mut body = Recv::h2(stream, DeclaredLength::chunked(), Recorder::new());

    assert_eq!(
        body.poll_trailers(),
        Poll::Ready(Err(BodyError::ProtocolFrame))
    );
}

#[test]
fn h2_ended_stream_forces_unknown_length_to_zero() {
    // An already-ended stream with a non-exact length is really exactly zero.
    let stream = NativeStream::new(Vec::new(), TrailerOutcome::Absent);
    let body = Recv::h2(stream, DeclaredLength::chunked(), Recorder::new());
    assert!(body.is_end_stream());
    assert_eq!(body.size_hint().upper(), Some(0));

    // An exact length is left alone.
    let stream = NativeStream::new(Vec::new(), TrailerOutcome::Absent);
    let body = Recv::h2(stream, DeclaredLength::new(7), Recorder::new());
    assert_eq!(body.size_hint().upper(), Some(7));
}

#[test]
fn laws_hold_on_concrete_values() {
    let chunks = vec![b"one".to_vec(), b"two".to_vec(), b"three".to_vec()];
    let (out, after, again) = laws::law_chunks_then_drop_yield_in_order(
        chunks.clone(),
        DeclaredLength::chunked(),
        DemandMode::Eager,
    );
    assert_eq!(out, chunks);
    assert_eq!(after, Poll::Ready(None));
    assert_eq!(again, Poll::Ready(None));

    let (first, second, third) = laws::law_abort_delivers_buffered_chunk_first(
        b"buffered".to_vec(),
        DeclaredLength::new(8),
        DemandMode::Eager,
    );
    assert_eq!(first, Poll::Ready(Some(Ok(b"buffered".to_vec()))));
    assert_eq!(second, Poll::Ready(Some(Err(BodyError::BodyWriteAborted))));
    assert_eq!(third, Poll::Ready(None));

    let (ended, hint) = laws::law_empty_body_is_done_without_polling();
    assert!(ended);
    assert_eq!(hint, SizeHint::with_exact(0));

    let (before, parked, after) =
        laws::law_lazy_readiness_waits_for_first_poll(DeclaredLength::chunked());
    assert!(before.is_pending());
    assert!(!parked);
    assert_eq!(after, Poll::Ready(Ok(())));

    let (before, parked, after) =
        laws::law_consumer_drop_wakes_suspended_producer(DeclaredLength::chunked());
    assert!(before.is_pending());
    assert!(!parked);
    assert_eq!(after, Poll::Ready(Err(BodyError::Closed)));
}
