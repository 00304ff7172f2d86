//! A transport-agnostic, backpressure-aware streaming body core.
//!
//! The crate models how an HTTP implementation moves message payloads (data
//! chunks and trailing metadata) from a producer to a consumer without
//! blocking threads and without unbounded buffering. The central pieces are:
//!
//! - [`length::DeclaredLength`]: the body's advertised size state, with
//!   saturating subtraction that can never underflow;
//! - [`chan::Channel`]: the channel-backed producer/consumer pair, composed of
//!   a capacity-one data queue, a one-shot trailer slot and a tri-state
//!   backpressure signal;
//! - [`native::NativeBody`]: the protocol-native backend, which pulls frames
//!   from a receive stream while releasing flow-control credit and feeding a
//!   keepalive recorder;
//! - [`body::Recv`]: the polymorphic body presenting one uniform poll-based
//!   contract over the empty, channel-fed and protocol-native backends.
//!
//! Every operation is a deterministic step of a state machine, stated in its
//! contract; the asynchronous plumbing that drives those steps (wakers, real
//! channel primitives, the HTTP/2 stream) lives outside this crate. The
//! stream-level guarantees — in-order delivery, abort ordering, the lazy
//! demand protocol, wake-up on consumer drop — are proved for all inputs in
//! [`laws`].

pub mod body;
pub mod chan;
pub mod error;
pub mod laws;
pub mod length;
pub mod native;
pub mod types;
pub mod want;
