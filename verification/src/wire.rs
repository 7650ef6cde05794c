//! The format on the wire. All numbers are little-endian.
//!
//! | message       | bytes | layout                                          |
//! |---------------|-------|-------------------------------------------------|
//! | greeting      | 4     | `R`, version, stream count (16 bit)             |
//! | selection     | 3     | stream id (16 bit), frames per second           |
//! | description   | 7     | stream id, format tag, width, height            |
//! | frame         | any   | metadata length (32 bit), metadata, data length |
//! |               |       | (32 bit), data                                  |
//!
//! A metadata length of zero means that the frame has no metadata. A
//! selection of zero frames per second is refused by the decoder.

use crate::error::{DecodeError, Error};
use crate::format::Format;
use crate::frame::{Frame, FrameView, MAX_BLOB_LEN};
use std::sync::Arc;
use vstd::prelude::*;
use vstd::slice::{slice_subrange, slice_to_vec};

verus! {

/// First byte of every greeting: ASCII `R`.
pub const GREETING_MAGIC: u8 = 0x52;

/// Size of a greeting on the wire.
pub const GREETING_LEN: usize = 4;

/// Size of a stream selection on the wire.
pub const STREAM_SELECT_LEN: usize = 3;

/// Size of a stream description on the wire.
pub const STREAM_INFO_LEN: usize = 7;

/// Size of the length field in front of each blob of a frame.
pub const BLOB_PREFIX_LEN: usize = 4;

/// The two bytes of a 16-bit number, least significant first.
pub open spec fn le16(x: u16) -> Seq<u8> {
    seq![(x % 256) as u8, (x / 256) as u8]
}

/// The 16-bit number whose little-endian bytes are `b0 b1`.
pub open spec fn from_le16(b0: u8, b1: u8) -> u16 {
    (b0 + 256 * b1) as u16
}

/// The four bytes of a 32-bit number, least significant first.
pub open spec fn le32(x: u32) -> Seq<u8> {
    seq![
        (x % 256) as u8,
        (x / 256 % 256) as u8,
        (x / 256 / 256 % 256) as u8,
        (x / 256 / 256 / 256) as u8,
    ]
}

/// The 32-bit number whose little-endian bytes are `b0 b1 b2 b3`.
pub open spec fn from_le32(b0: u8, b1: u8, b2: u8, b3: u8) -> u32 {
    (b0 + 256 * (b1 + 256 * (b2 + 256 * b3))) as u32
}

/// Two little-endian bytes determine their number and the other way round.
pub proof fn le16_roundtrip(x: u16, b0: u8, b1: u8)
    ensures
        le16(x).len() == 2,
        from_le16(le16(x)[0], le16(x)[1]) == x,
        le16(from_le16(b0, b1)) == seq![b0, b1],
{
}

/// Four little-endian bytes determine their number and the other way round.
pub proof fn le32_roundtrip(x: u32, b0: u8, b1: u8, b2: u8, b3: u8)
    ensures
        le32(x).len() == 4,
        from_le32(le32(x)[0], le32(x)[1], le32(x)[2], le32(x)[3]) == x,
        le32(from_le32(b0, b1, b2, b3)) == seq![b0, b1, b2, b3],
{
    // Peel the bytes off one by one, from the least significant.
    let q1: int = x as int / 256;
    let q2: int = q1 / 256;
    let q3: int = q2 / 256;
    assert(x == 256 * q1 + x % 256);
    assert(q1 == 256 * q2 + q1 % 256);
    assert(q2 == 256 * q3 + q2 % 256);
    assert(q3 < 256);
    // And the other way round: every division gives back what was put in.
    let h2: int = b2 + 256 * b3;
    let h1: int = b1 + 256 * h2;
    let y: int = b0 + 256 * h1;
    assert(y % 256 == b0 && y / 256 == h1);
    assert(h1 % 256 == b1 && h1 / 256 == h2);
    assert(h2 % 256 == b2 && h2 / 256 == b3);
}

/// Appends the little-endian bytes of `x` to `out`.
pub(crate) fn put_le16(out: &mut Vec<u8>, x: u16)
    ensures
        final(out)@ == old(out)@ + le16(x),
{
    out.push((x % 256) as u8);
    out.push((x / 256) as u8);
}

/// Appends the little-endian bytes of `x` to `out`.
pub(crate) fn put_le32(out: &mut Vec<u8>, x: u32)
    ensures
        final(out)@ == old(out)@ + le32(x),
{
    out.push((x % 256) as u8);
    out.push((x / 256 % 256) as u8);
    out.push((x / 256 / 256 % 256) as u8);
    out.push((x / 256 / 256 / 256) as u8);
}

/// Reads a little-endian 16-bit number at `at`.
pub(crate) fn get_le16(bytes: &[u8], at: usize) -> (x: u16)
    requires
        at + 2 <= bytes@.len(),
    ensures
        x == from_le16(bytes@[at as int], bytes@[at + 1]),
{
    let b0: u16 = bytes[at] as u16;
    let b1: u16 = bytes[at + 1] as u16;
    b0 + 256 * b1
}

/// Reads a little-endian 32-bit number at `at`.
pub(crate) fn get_le32(bytes: &[u8], at: usize) -> (x: u32)
    requires
        at + 4 <= bytes@.len(),
    ensures
        x == from_le32(bytes@[at as int], bytes@[at + 1], bytes@[at + 2], bytes@[at + 3]),
{
    let b0: u32 = bytes[at] as u32;
    let b1: u32 = bytes[at + 1] as u32;
    let b2: u32 = bytes[at + 2] as u32;
    let b3: u32 = bytes[at + 3] as u32;
    b0 + 256 * (b1 + 256 * (b2 + 256 * b3))
}

/// The message a server sends as soon as a connection is accepted.
#[derive(Clone, Copy, Debug, PartialEq, Eq, Structural)]
pub struct Greetings {
    /// Protocol version of the server.
    pub api_version: u8,
    /// Number of streams the server offers.
    pub streams_available: u16,
}

impl Greetings {
    /// The four bytes of the greeting: magic, version, stream count.
    pub open spec fn wire(self) -> Seq<u8> {
        seq![GREETING_MAGIC, self.api_version] + le16(self.streams_available)
    }

    /// What a decoder makes of `bytes`: the greeting at their start, or the
    /// reason there is none.
    pub open spec fn parse(bytes: Seq<u8>) -> Result<Greetings, Error> {
        if bytes.len() < GREETING_LEN {
            Err(Error::Decode(DecodeError::Truncated))
        } else if bytes[0] != GREETING_MAGIC {
            Err(Error::Decode(DecodeError::BadMagic(bytes[0])))
        } else {
            Ok(
                Greetings {
                    api_version: bytes[1],
                    streams_available: from_le16(bytes[2], bytes[3]),
                },
            )
        }
    }

    /// Encodes the greeting.
    pub fn encode(&self) -> (bytes: Vec<u8>)
        ensures
            bytes@ == self.wire(),
    {
        let mut bytes: Vec<u8> = Vec::new();
        bytes.push(GREETING_MAGIC);
        bytes.push(self.api_version);
        put_le16(&mut bytes, self.streams_available);
        assert(bytes@ =~= self.wire());
        bytes
    }

    /// Decodes the greeting at the start of `bytes`.
    pub fn decode(bytes: &[u8]) -> (greeting: Result<Greetings, Error>)
        ensures
            greeting == Greetings::parse(bytes@),
    {
        if bytes.len() < GREETING_LEN {
            Err(Error::Decode(DecodeError::Truncated))
        } else if bytes[0] != GREETING_MAGIC {
            Err(Error::Decode(DecodeError::BadMagic(bytes[0])))
        } else {
            Ok(Greetings { api_version: bytes[1], streams_available: get_le16(bytes, 2) })
        }
    }
}

/// The message by which a client picks its stream and its frame rate cap.
#[derive(Clone, Copy, Debug, PartialEq, Eq, Structural)]
pub struct StreamSelect {
    /// The stream the client wants.
    pub stream_id: u16,
    /// Most frames per second the client wants to receive; never zero in a
    /// selection that a server accepts.
    pub max_fps: u8,
}

impl StreamSelect {
    /// The three bytes of the selection.
    pub open spec fn wire(self) -> Seq<u8> {
        le16(self.stream_id) + seq![self.max_fps]
    }

    /// What a decoder makes of `bytes`. A rate cap of zero has no meaning
    /// as an interval and is refused here.
    pub open spec fn parse(bytes: Seq<u8>) -> Result<StreamSelect, Error> {
        if bytes.len() < STREAM_SELECT_LEN {
            Err(Error::Decode(DecodeError::Truncated))
        } else if bytes[2] == 0 {
            Err(Error::Decode(DecodeError::ZeroFrameRate))
        } else {
            Ok(StreamSelect { stream_id: from_le16(bytes[0], bytes[1]), max_fps: bytes[2] })
        }
    }

    /// Encodes the selection.
    pub fn encode(&self) -> (bytes: Vec<u8>)
        ensures
            bytes@ == self.wire(),
    {
        let mut bytes: Vec<u8> = Vec::new();
        put_le16(&mut bytes, self.stream_id);
        bytes.push(self.max_fps);
        assert(bytes@ =~= self.wire());
        bytes
    }

    /// Decodes the selection at the start of `bytes`.
    pub fn decode(bytes: &[u8]) -> (select: Result<StreamSelect, Error>)
        ensures
            select == StreamSelect::parse(bytes@),
    {
        if bytes.len() < STREAM_SELECT_LEN {
            Err(Error::Decode(DecodeError::Truncated))
        } else if bytes[2] == 0 {
            Err(Error::Decode(DecodeError::ZeroFrameRate))
        } else {
            Ok(StreamSelect { stream_id: get_le16(bytes, 0), max_fps: bytes[2] })
        }
    }
}

/// What a server tells a client about the stream it selected.
#[derive(Clone, Copy, Debug, PartialEq, Eq, Structural)]
pub struct StreamInfo {
    /// Stream id
    pub id: u16,
    /// Stream format
    pub format: Format,
    /// Picture width
    pub width: u16,
    /// Picture height
    pub height: u16,
}

impl StreamInfo {
    /// The seven bytes of the description.
    pub open spec fn wire(self) -> Seq<u8> {
        le16(self.id) + seq![self.format.tag()] + le16(self.width) + le16(self.height)
    }

    /// What a decoder makes of `bytes`.
    pub open spec fn parse(bytes: Seq<u8>) -> Result<StreamInfo, Error> {
        if bytes.len() < STREAM_INFO_LEN {
            Err(Error::Decode(DecodeError::Truncated))
        } else {
            match Format::of_tag(bytes[2]) {
                None => Err(Error::Decode(DecodeError::UnknownFormat(bytes[2]))),
                Some(format) => Ok(
                    StreamInfo {
                        id: from_le16(bytes[0], bytes[1]),
                        format,
                        width: from_le16(bytes[3], bytes[4]),
                        height: from_le16(bytes[5], bytes[6]),
                    },
                ),
            }
        }
    }

    /// Encodes the description.
    pub fn encode(&self) -> (bytes: Vec<u8>)
        ensures
            bytes@ == self.wire(),
    {
        let mut bytes: Vec<u8> = Vec::new();
        put_le16(&mut bytes, self.id);
        bytes.push(self.format.to_wire());
        put_le16(&mut bytes, self.width);
        put_le16(&mut bytes, self.height);
        assert(bytes@ =~= self.wire());
        bytes
    }

    /// Decodes the description at the start of `bytes`.
    pub fn decode(bytes: &[u8]) -> (info: Result<StreamInfo, Error>)
        ensures
            info == StreamInfo::parse(bytes@),
    {
        if bytes.len() < STREAM_INFO_LEN {
            return Err(Error::Decode(DecodeError::Truncated));
        }
        match Format::from_wire(bytes[2]) {
            None => Err(Error::Decode(DecodeError::UnknownFormat(bytes[2]))),
            Some(format) => Ok(
                StreamInfo {
                    id: get_le16(bytes, 0),
                    format,
                    width: get_le16(bytes, 3),
                    height: get_le16(bytes, 5),
                },
            ),
        }
    }
}

/// A greeting survives encoding and decoding, whatever follows it in the buffer.
pub proof fn greeting_roundtrip(greeting: Greetings, rest: Seq<u8>)
    ensures
        greeting.wire().len() == GREETING_LEN,
        Greetings::parse(greeting.wire() + rest) == Ok::<Greetings, Error>(greeting),
{
    le16_roundtrip(greeting.streams_available, 0, 0);
}

/// A selection with a rate cap of at least one survives encoding and
/// decoding, whatever follows it in the buffer.
pub proof fn stream_select_roundtrip(select: StreamSelect, rest: Seq<u8>)
    requires
        select.max_fps >= 1,
    ensures
        select.wire().len() == STREAM_SELECT_LEN,
        StreamSelect::parse(select.wire() + rest) == Ok::<StreamSelect, Error>(select),
{
    le16_roundtrip(select.stream_id, 0, 0);
}

/// A stream description survives encoding and decoding, whatever follows it
/// in the buffer.
pub proof fn stream_info_roundtrip(info: StreamInfo, rest: Seq<u8>)
    ensures
        info.wire().len() == STREAM_INFO_LEN,
        StreamInfo::parse(info.wire() + rest) == Ok::<StreamInfo, Error>(info),
{
    le16_roundtrip(info.id, 0, 0);
    le16_roundtrip(info.width, 0, 0);
    le16_roundtrip(info.height, 0, 0);
}

/// The metadata bytes of a frame as they travel: nothing when there is no
/// metadata.
pub open spec fn metadata_bytes(frame: FrameView) -> Seq<u8> {
    match frame.metadata {
        Some(m) => m,
        None => Seq::empty(),
    }
}

/// Why a frame cannot be put on the wire, if it cannot: a blob longer than
/// its 32-bit length field can say. Metadata is looked at first.
pub open spec fn frame_size_error(frame: FrameView) -> Option<Error> {
    if metadata_bytes(frame).len() > MAX_BLOB_LEN {
        Some(Error::FrameMetaDataTooLarge)
    } else if frame.data.len() > MAX_BLOB_LEN {
        Some(Error::FrameDataTooLarge)
    } else {
        None
    }
}

/// The bytes of a frame message: length-prefixed metadata, then
/// length-prefixed data. Meaningful for frames without a size error.
pub open spec fn frame_wire(frame: FrameView) -> Seq<u8> {
    le32(metadata_bytes(frame).len() as u32) + metadata_bytes(frame) + le32(
        frame.data.len() as u32,
    ) + frame.data
}

/// What a decoder makes of `bytes`: the frame at their start together with
/// the number of bytes it occupies, or `Truncated` when the buffer ends
/// before the frame does. A metadata length of zero means no metadata.
pub open spec fn parse_frame(bytes: Seq<u8>) -> Result<(FrameView, nat), Error> {
    if bytes.len() < 4 {
        Err(Error::Decode(DecodeError::Truncated))
    } else {
        let m: int = from_le32(bytes[0], bytes[1], bytes[2], bytes[3]) as int;
        if bytes.len() - 4 < m + 4 {
            Err(Error::Decode(DecodeError::Truncated))
        } else {
            let d: int = from_le32(bytes[4 + m], bytes[5 + m], bytes[6 + m], bytes[7 + m]) as int;
            if bytes.len() - 8 - m < d {
                Err(Error::Decode(DecodeError::Truncated))
            } else {
                Ok(
                    (
                        FrameView {
                            metadata: if m == 0 {
                                None
                            } else {
                                Some(bytes.subrange(4, 4 + m))
                            },
                            data: bytes.subrange(8 + m, 8 + m + d),
                        },
                        (8 + m + d) as nat,
                    ),
                )
            }
        }
    }
}

/// Checks that both blobs of a frame fit their length fields.
pub fn check_frame(frame: &Frame) -> (verdict: Result<(), Error>)
    ensures
        verdict == match frame_size_error(frame@) {
            Some(e) => Err::<(), Error>(e),
            None => Ok::<(), Error>(()),
        },
{
    match &frame.metadata {
        Some(m) => {
            if m.len() > MAX_BLOB_LEN as usize {
                return Err(Error::FrameMetaDataTooLarge);
            }
        },
        None => {},
    }
    if frame.data.len() > MAX_BLOB_LEN as usize {
        return Err(Error::FrameDataTooLarge);
    }
    Ok(())
}

/// Encodes a frame whose blobs fit their length fields.
pub(crate) fn frame_bytes(frame: &Frame) -> (bytes: Vec<u8>)
    requires
        frame_size_error(frame@) is None,
    ensures
        bytes@ == frame_wire(frame@),
{
    let mut bytes: Vec<u8> = Vec::new();
    match &frame.metadata {
        Some(m) => {
            put_le32(&mut bytes, m.len() as u32);
            bytes.extend_from_slice(m.as_slice());
        },
        None => {
            put_le32(&mut bytes, 0);
        },
    }
    assert(bytes@ =~= le32(metadata_bytes(frame@).len() as u32) + metadata_bytes(frame@));
    put_le32(&mut bytes, frame.data.len() as u32);
    let ghost before = bytes@;
    bytes.extend_from_slice(frame.data.as_slice());
    assert(bytes@ =~= before + frame.data@);
    bytes
}

/// Encodes a frame message, or says which blob is too large for it.
pub fn encode_frame(frame: &Frame) -> (encoded: Result<Vec<u8>, Error>)
    ensures
        match frame_size_error(frame@) {
            Some(e) => encoded == Err::<Vec<u8>, Error>(e),
            None => encoded matches Ok(bytes) && bytes@ == frame_wire(frame@),
        },
{
    match check_frame(frame) {
        Err(e) => Err(e),
        Ok(()) => Ok(frame_bytes(frame)),
    }
}

/// Decodes the frame message at the start of `bytes` and says how many
/// bytes it occupied.
pub fn decode_frame(bytes: &[u8]) -> (decoded: Result<(Frame, usize), Error>)
    ensures
        match parse_frame(bytes@) {
            Ok((frame, used)) => decoded matches Ok((f, n)) && f@ == frame && n == used,
            Err(e) => decoded matches Err(d) && d == e,
        },
{
    let total: usize = bytes.len();
    if total < 4 {
        return Err(Error::Decode(DecodeError::Truncated));
    }
    let m: usize = get_le32(bytes, 0) as usize;
    if total - 4 < 4 || total - 8 < m {
        return Err(Error::Decode(DecodeError::Truncated));
    }
    let d: usize = get_le32(bytes, 4 + m) as usize;
    if total - 8 - m < d {
        return Err(Error::Decode(DecodeError::Truncated));
    }
    let metadata: Option<Arc<Vec<u8>>> = if m == 0 {
        None
    } else {
        Some(Arc::new(slice_to_vec(slice_subrange(bytes, 4, 4 + m))))
    };
    let data: Vec<u8> = slice_to_vec(slice_subrange(bytes, 8 + m, 8 + m + d));
    Ok((Frame { metadata, data: Arc::new(data) }, 8 + m + d))
}

/// A frame whose blobs fit their length fields survives encoding and
/// decoding, whatever follows it in the buffer, unless it carries metadata
/// of length zero: on the wire that is the same as no metadata.
pub proof fn frame_roundtrip(frame: FrameView, rest: Seq<u8>)
    requires
        frame_size_error(frame) is None,
        frame.metadata != Some(Seq::<u8>::empty()),
    ensures
        frame_wire(frame).len() == 8 + metadata_bytes(frame).len() + frame.data.len(),
        parse_frame(frame_wire(frame) + rest) == Ok::<(FrameView, nat), Error>(
            (frame, frame_wire(frame).len()),
        ),
{
    let meta = metadata_bytes(frame);
    let m: u32 = meta.len() as u32;
    let d: u32 = frame.data.len() as u32;
    let bytes = frame_wire(frame) + rest;
    le32_roundtrip(m, 0, 0, 0, 0);
    le32_roundtrip(d, 0, 0, 0, 0);
    assert(bytes[0] == le32(m)[0] && bytes[1] == le32(m)[1] && bytes[2] == le32(m)[2]
        && bytes[3] == le32(m)[3]);
    assert(bytes[4 + m] == le32(d)[0] && bytes[5 + m] == le32(d)[1] && bytes[6 + m] == le32(d)[2]
        && bytes[7 + m] == le32(d)[3]);
    assert(bytes.subrange(4, 4 + m) =~= meta);
    assert(bytes.subrange(8 + m, 8 + m + d) =~= frame.data);
    if let Some(s) = frame.metadata {
        if m == 0 {
            assert(s =~= Seq::<u8>::empty());
        }
    }
}

/// What decodes was encoded: a message that a decoder finds at the start of
/// a buffer is one whose encoding is exactly the bytes the decoder used. A
/// decoded selection has a rate cap of at least one; a decoded frame fits
/// the wire and carries no metadata of length zero.
pub proof fn decoded_was_encoded(bytes: Seq<u8>)
    ensures
        Greetings::parse(bytes) matches Ok(greeting) ==> greeting.wire() == bytes.subrange(
            0,
            GREETING_LEN as int,
        ),
        StreamSelect::parse(bytes) matches Ok(select) ==> select.max_fps >= 1 && select.wire()
            == bytes.subrange(0, STREAM_SELECT_LEN as int),
        StreamInfo::parse(bytes) matches Ok(info) ==> info.wire() == bytes.subrange(
            0,
            STREAM_INFO_LEN as int,
        ),
        parse_frame(bytes) matches Ok((frame, used)) ==> used <= bytes.len() && frame_size_error(
            frame,
        ) is None && frame.metadata != Some(Seq::<u8>::empty()) && frame_wire(frame)
            == bytes.subrange(0, used as int),
{
    if let Ok(greeting) = Greetings::parse(bytes) {
        le16_roundtrip(0, bytes[2], bytes[3]);
        assert(greeting.wire() =~= bytes.subrange(0, GREETING_LEN as int));
    }
    if let Ok(select) = StreamSelect::parse(bytes) {
        le16_roundtrip(0, bytes[0], bytes[1]);
        assert(select.wire() =~= bytes.subrange(0, STREAM_SELECT_LEN as int));
    }
    if let Ok(info) = StreamInfo::parse(bytes) {
        le16_roundtrip(0, bytes[0], bytes[1]);
        le16_roundtrip(0, bytes[3], bytes[4]);
        le16_roundtrip(0, bytes[5], bytes[6]);
        assert(info.wire() =~= bytes.subrange(0, STREAM_INFO_LEN as int));
    }
    if let Ok((frame, used)) = parse_frame(bytes) {
        let m: int = from_le32(bytes[0], bytes[1], bytes[2], bytes[3]) as int;
        let d: int = from_le32(bytes[4 + m], bytes[5 + m], bytes[6 + m], bytes[7 + m]) as int;
        le32_roundtrip(0, bytes[0], bytes[1], bytes[2], bytes[3]);
        le32_roundtrip(0, bytes[4 + m], bytes[5 + m], bytes[6 + m], bytes[7 + m]);
        assert(metadata_bytes(frame) =~= bytes.subrange(4, 4 + m));
        assert(frame_wire(frame) =~= bytes.subrange(0, used as int));
    }
}

} // verus!
