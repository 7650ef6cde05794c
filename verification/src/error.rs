//! The errors of the library.

use vstd::prelude::*;

verus! {

/// Why a sequence of wire bytes was refused by a decoder.
#[derive(Clone, Copy, Debug, PartialEq, Eq, Structural)]
pub enum DecodeError {
    /// Fewer bytes were supplied than the message occupies.
    Truncated,
    /// A greeting did not start with the magic byte; the byte found is attached.
    BadMagic(u8),
    /// A stream description carried a format tag outside the table; the tag is attached.
    UnknownFormat(u8),
    /// A stream selection asked for zero frames per second.
    ZeroFrameRate,
}

/// Everything that can go wrong between a producer, the server and a client.
#[derive(Clone, Copy, Debug, PartialEq, Eq, Structural)]
pub enum Error {
    /// The stream is not registered on the server, or the server answered a
    /// selection with a different stream.
    InvalidStream,
    /// The server already holds the maximum number of streams.
    TooManyStreams,
    /// The transport failed.
    Io,
    /// The remote side announced a protocol version this library does not speak.
    ApiVersion(u8),
    /// Wire bytes could not be decoded.
    Decode(DecodeError),
    /// Frame metadata does not fit the 32-bit length field.
    FrameMetaDataTooLarge,
    /// Frame data does not fit the 32-bit length field.
    FrameDataTooLarge,
    /// An address resolved to no endpoint.
    InvalidAddress,
    /// Frames were requested before a stream was selected.
    NotReady,
    /// An operation of the cooperative client exceeded its timeout.
    AsyncTimeout,
}

} // verus!
