use recv_body::native::{FrameEvent, NativeStream, Recorder, StreamFault, TrailerOutcome};
use recv_body::types::Trailers;

#[test]
fn scripted_stream_plays_in_order() {
    let frames = vec![
        FrameEvent::Data(b"a".to_vec()),
        FrameEvent::Corrupt,
        FrameEvent::Data(b"b".to_vec()),
    ];
    let mut stream = NativeStream::new(frames, TrailerOutcome::Absent);

    assert!(!stream.is_end_stream());
    assert_eq!(stream.poll_data(), Some(Ok(b"a".to_vec())));
    assert_eq!(stream.poll_data(), Some(Err(StreamFault)));
    assert_eq!(stream.poll_data(), Some(Ok(b"b".to_vec())));
    assert_eq!(stream.poll_data(), None);
    assert!(stream.is_end_stream());
}

#[test]
fn release_capacity_saturates() {
    let mut stream = NativeStream::new(Vec::new(), TrailerOutcome::Absent);
    stream.release_capacity(10);
    assert_eq!(stream.released, 10);
    stream.released = u64::MAX - 1;
    stream.release_capacity(5);
    assert_eq!(stream.released, u64::MAX);
}

#[test]
fn trailer_outcome_is_consumed_once() {
    let mut trailers = Trailers::new();
    trailers.push(b"k".to_vec(), b"v".to_vec());
    let mut stream = NativeStream::new(Vec::new(), TrailerOutcome::Present(trailers.clone()));

    assert!(!stream.is_end_stream(), "trailers still to come");
    assert_eq!(stream.poll_trailers(), Ok(Some(trailers)));
    assert_eq!(stream.poll_trailers(), Ok(None));
    assert!(stream.is_end_stream());

    let mut bad = NativeStream::new(Vec::new(), TrailerOutcome::Malformed);
    assert_eq!(bad.poll_trailers(), Err(StreamFault));
}

#[test]
fn recorder_counts_observations() {
    let mut rec = Recorder::new();
    rec.record_data(100);
    rec.record_data(20);
    rec.record_non_data();
    assert_eq!(rec.data_bytes, 120);
    assert_eq!(rec.non_data_events, 1);

    rec.data_bytes = u64::MAX;
    rec.record_data(1);
    assert_eq!(rec.data_bytes, u64::MAX);
}
