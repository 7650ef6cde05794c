//! Video streaming over TCP: a server that broadcasts any number of streams
//! to any number of clients, and the client that receives one of them.
//!
//! This crate is the protocol and the bookkeeping, without a socket, a
//! thread or a clock in it. Whoever owns the socket moves the bytes and
//! reports what happened; the types here say what the bytes mean and what is
//! to be done next.
//!
//! * [`wire`] is the format on the wire: greeting, stream selection, stream
//!   description and frame, each with its encoder, its decoder and the proof
//!   that the two agree.
//! * [`slot`] is the one-element mailbox between the producer and one
//!   subscriber: a new frame replaces the one that waits.
//! * [`server`] is the stream registry: streams, their subscribers and the
//!   delivery of a frame to all subscribers of a stream.
//! * [`connection`] is the server's side of one connection, from greeting to
//!   streaming, with the frame rate cap of [`limiter`].
//! * [`client`] is the client's side: greeting, selection, and the reading of
//!   frames piece by piece.
//! * [`semaphore`] counts the connections that are served at once.
//! * [`metadata`], [`samples`], [`text`] and [`address`] are small helpers
//!   for programs that show a stream.
//!
//! Times are plain numbers of nanoseconds. A selection that asks for zero
//! frames per second is refused when it is decoded. A client's sequence of
//! frames ends with its first error.

use vstd::prelude::*;

pub mod address;
pub mod bbox;
pub mod client;
pub mod connection;
pub mod error;
pub mod format;
pub mod frame;
pub mod limiter;
pub mod metadata;
pub mod samples;
pub mod semaphore;
pub mod server;
pub mod slot;
pub mod text;
pub mod wire;

pub use address::with_default_port;
pub use bbox::BoundingBox;
pub use client::{Client, ClientView, ReadStep, ReadingView};
pub use connection::{
    Action, ActionView, Connection, ConnectionState, Event, EventView, Step,
};
pub use error::{DecodeError, Error};
pub use format::Format;
pub use frame::{Frame, FrameView, MAX_BLOB_LEN};
pub use limiter::{RateLimiter, NANOS_PER_SECOND};
pub use metadata::{format_value, MetaField, MetaValue};
pub use samples::vec_u8_to_vec_u16;
pub use semaphore::{GateEvent, Semaphore, SemaphoreGuard};
pub use server::{Server, ServerView, Stream, StreamView, DEFAULT_MAX_CLIENTS, MAX_STREAMS};
pub use slot::{FrameSlot, SlotPoll, SlotView};
pub use wire::{
    check_frame, decode_frame, encode_frame, Greetings, StreamInfo, StreamSelect,
    BLOB_PREFIX_LEN, GREETING_LEN, GREETING_MAGIC, STREAM_INFO_LEN, STREAM_SELECT_LEN,
};

verus! {

/// Protocol version announced in every greeting.
pub const API_VERSION: u8 = 1;

/// The TCP port servers listen on by convention. Nothing enforces it.
pub const DEFAULT_PORT: u16 = 3001;

} // verus!
