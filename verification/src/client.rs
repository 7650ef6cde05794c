//! The client's side of the protocol.
//!
//! A session begins with the server's greeting ([`Client::connect`]). The
//! caller then sends the bytes of [`Client::select_request`] and hands the
//! reply to [`Client::select_stream`]. From then on it reads frames in
//! pieces: [`Client::wanted`] says how many bytes to read from the server,
//! [`Client::read_next`] takes them and returns a frame whenever one is
//! complete. The blocking and the cooperative client differ only in how they
//! read those bytes.
//!
//! The first error ends the sequence of frames for good, whether the client
//! finds it itself or the transport reports it with [`Client::read_failed`]:
//! the bytes that follow a failed read belong to no frame anyone can name.
//! An ended client asks for no more bytes and hands out no more frames.

use crate::error::{DecodeError, Error};
use crate::frame::{Frame, FrameView};
use crate::wire::{
    frame_roundtrip, frame_size_error, frame_wire, from_le32, get_le32, le32, le32_roundtrip,
    parse_frame, Greetings, StreamInfo, StreamSelect, BLOB_PREFIX_LEN,
};
use crate::API_VERSION;
use std::sync::Arc;
use vstd::prelude::*;

verus! {

/// How far a client has come with the frame it is reading, as plain values.
pub enum ReadingView {
    /// Between two frames: the length of the metadata comes next.
    MetadataLen,
    /// The metadata of this length comes next.
    Metadata { len: usize },
    /// The metadata is complete: the length of the data comes next.
    DataLen { metadata: Option<Seq<u8>> },
    /// The data of this length comes next.
    Data { metadata: Option<Seq<u8>>, len: usize },
}

impl ReadingView {
    /// The number of bytes to read from the server next.
    pub open spec fn wanted(self) -> nat {
        match self {
            ReadingView::MetadataLen => BLOB_PREFIX_LEN as nat,
            ReadingView::Metadata { len } => len as nat,
            ReadingView::DataLen { metadata } => BLOB_PREFIX_LEN as nat,
            ReadingView::Data { metadata, len } => len as nat,
        }
    }

    /// The bytes of the current frame that were read so far.
    pub open spec fn consumed(self) -> Seq<u8> {
        match self {
            ReadingView::MetadataLen => Seq::empty(),
            ReadingView::Metadata { len } => le32(len as u32),
            ReadingView::DataLen { metadata } => match metadata {
                Some(m) => le32(m.len() as u32) + m,
                None => le32(0),
            },
            ReadingView::Data { metadata, len } => match metadata {
                Some(m) => le32(m.len() as u32) + m + le32(len as u32),
                None => le32(0) + le32(len as u32),
            },
        }
    }

    /// Where the client stands after it was handed the `wanted` bytes.
    pub open spec fn after(self, bytes: Seq<u8>) -> ReadingView {
        match self {
            ReadingView::MetadataLen => {
                let len = from_le32(bytes[0], bytes[1], bytes[2], bytes[3]) as usize;
                if len == 0 {
                    ReadingView::DataLen { metadata: None }
                } else {
                    ReadingView::Metadata { len }
                }
            },
            ReadingView::Metadata { len } => ReadingView::DataLen { metadata: Some(bytes) },
            ReadingView::DataLen { metadata } => {
                let len = from_le32(bytes[0], bytes[1], bytes[2], bytes[3]) as usize;
                if len == 0 {
                    ReadingView::MetadataLen
                } else {
                    ReadingView::Data { metadata, len }
                }
            },
            ReadingView::Data { metadata, len } => ReadingView::MetadataLen,
        }
    }

    /// The frame that the `wanted` bytes complete, if they complete one: the
    /// data itself, or a data length of zero.
    pub open spec fn completed(self, bytes: Seq<u8>) -> Option<FrameView> {
        match self {
            ReadingView::DataLen { metadata } => if from_le32(
                bytes[0],
                bytes[1],
                bytes[2],
                bytes[3],
            ) == 0 {
                Some(FrameView { metadata, data: Seq::empty() })
            } else {
                None
            },
            ReadingView::Data { metadata, len } => Some(FrameView { metadata, data: bytes }),
            _ => None,
        }
    }

    /// How many more pieces the client reads at most before the current
    /// frame is complete.
    pub open spec fn pieces_left(self) -> nat {
        match self {
            ReadingView::MetadataLen => 4,
            ReadingView::Metadata { len } => 3,
            ReadingView::DataLen { metadata } => 2,
            ReadingView::Data { metadata, len } => 1,
        }
    }

    /// The frame a client in this state reads from the front of `bytes`,
    /// piece by piece, and the number of bytes it reads for it; `None` if
    /// the bytes end before the frame does.
    pub open spec fn frame_from(self, bytes: Seq<u8>) -> Option<(FrameView, nat)>
        decreases self.pieces_left(),
    {
        let wanted = self.wanted();
        if bytes.len() < wanted {
            None
        } else {
            let piece = bytes.take(wanted as int);
            match self.completed(piece) {
                Some(frame) => Some((frame, wanted)),
                None => match self.after(piece).frame_from(bytes.skip(wanted as int)) {
                    Some((frame, used)) => Some((frame, wanted + used)),
                    None => None,
                },
            }
        }
    }

    /// What every state of a reading client satisfies: announced lengths
    /// are not zero and fit 32 bits, and metadata that was read is not empty.
    pub open spec fn sound(self) -> bool {
        match self {
            ReadingView::MetadataLen => true,
            ReadingView::Metadata { len } => 0 < len <= u32::MAX,
            ReadingView::DataLen { metadata } => metadata matches Some(m) ==> 0 < m.len()
                <= u32::MAX,
            ReadingView::Data { metadata, len } => 0 < len <= u32::MAX && (metadata matches Some(
                m,
            ) ==> 0 < m.len() <= u32::MAX),
        }
    }
}

/// A client as plain values.
pub struct ClientView {
    /// The number of streams the server announced in its greeting.
    pub streams_available: u16,
    /// Whether a stream was selected, so that frames can be read.
    pub ready: bool,
    /// Whether the sequence of frames has ended. It ends with the first
    /// error and never begins again.
    pub ended: bool,
    /// How far the current frame has been read.
    pub reading: ReadingView,
}

impl ClientView {
    /// Why a client that has not ended cannot take `count` bytes, if it
    /// cannot: no stream was selected yet, or the transport brought another
    /// number of bytes than was asked for.
    pub open spec fn read_error(self, count: nat) -> Option<Error> {
        if !self.ready {
            Some(Error::NotReady)
        } else if count != self.reading.wanted() {
            Some(Error::Decode(DecodeError::Truncated))
        } else {
            None
        }
    }

    /// The client after its sequence of frames has ended.
    pub open spec fn after_end(self) -> ClientView {
        ClientView { ended: true, ..self }
    }

    /// The client after it was asked how many bytes it wants: asking before
    /// a stream was selected is an error and ends the sequence.
    pub open spec fn after_wanted(self) -> ClientView {
        if !self.ended && !self.ready {
            self.after_end()
        } else {
            self
        }
    }

    /// The client after it was handed `bytes`. An ended client does not look
    /// at them; bytes it cannot take end the sequence; otherwise it moves on
    /// in the frame it is reading.
    pub open spec fn after_read(self, bytes: Seq<u8>) -> ClientView {
        if self.ended {
            self
        } else if self.read_error(bytes.len()) is Some {
            self.after_end()
        } else {
            ClientView { reading: self.reading.after(bytes), ..self }
        }
    }

    /// The client after the server's reply to a selection was accepted or
    /// refused.
    pub open spec fn after_select(self, accepted: bool) -> ClientView {
        ClientView { ready: self.ready || accepted, ..self }
    }
}

/// What became of the bytes handed to a client.
#[derive(Debug)]
pub enum ReadStep {
    /// The bytes were taken; the frame is not complete yet.
    Pending,
    /// The bytes completed this frame.
    Complete(Frame),
    /// The sequence of frames ended earlier; the bytes were not looked at.
    Ended,
}

enum Reading {
    MetadataLen,
    Metadata { len: usize },
    DataLen { metadata: Option<Vec<u8>> },
    Data { metadata: Option<Vec<u8>>, len: usize },
}

impl View for Reading {
    type V = ReadingView;

    closed spec fn view(&self) -> ReadingView {
        match *self {
            Reading::MetadataLen => ReadingView::MetadataLen,
            Reading::Metadata { len } => ReadingView::Metadata { len },
            Reading::DataLen { metadata } => ReadingView::DataLen {
                metadata: match metadata {
                    Some(m) => Some(m@),
                    None => None,
                },
            },
            Reading::Data { metadata, len } => ReadingView::Data {
                metadata: match metadata {
                    Some(m) => Some(m@),
                    None => None,
                },
                len,
            },
        }
    }
}

/// The client's side of the protocol, free of any socket: the caller moves
/// the bytes, the client says what they mean and what to read next.
pub struct Client {
    streams_available: u16,
    ready: bool,
    ended: bool,
    reading: Reading,
}

impl View for Client {
    type V = ClientView;

    closed spec fn view(&self) -> ClientView {
        ClientView {
            streams_available: self.streams_available,
            ready: self.ready,
            ended: self.ended,
            reading: self.reading@,
        }
    }
}

/// What a client makes of the first bytes a server sent: the decoded
/// greeting if it carries this library's protocol version.
pub open spec fn accept_greeting(bytes: Seq<u8>) -> Result<Greetings, Error> {
    match Greetings::parse(bytes) {
        Err(e) => Err(e),
        Ok(greeting) => if greeting.api_version != API_VERSION {
            Err(Error::ApiVersion(greeting.api_version))
        } else {
            Ok(greeting)
        },
    }
}

/// What a client that asked for `stream_id` makes of the server's reply: the
/// decoded description if it names the very stream that was asked for.
pub open spec fn accept_stream_info(stream_id: u16, reply: Seq<u8>) -> Result<StreamInfo, Error> {
    match StreamInfo::parse(reply) {
        Err(e) => Err(e),
        Ok(info) => if info.id == stream_id {
            Ok(info)
        } else {
            Err(Error::InvalidStream)
        },
    }
}

impl Client {
    /// Holds of every client: the lengths it has read are not zero and fit
    /// 32 bits.
    #[verifier::type_invariant]
    spec fn sound(self) -> bool {
        self.reading@.sound()
    }

    /// Begins a session from the greeting the server sent on connect. The
    /// greeting has to decode and to carry this library's protocol version.
    pub fn connect(greeting: &[u8]) -> (connected: Result<Client, Error>)
        ensures
            match accept_greeting(greeting@) {
                Ok(g) => connected matches Ok(client) && client@ == (ClientView {
                    streams_available: g.streams_available,
                    ready: false,
                    ended: false,
                    reading: ReadingView::MetadataLen,
                }),
                Err(e) => connected matches Err(d) && d == e,
            },
    {
        let greeting = match Greetings::decode(greeting) {
            Err(e) => {
                return Err(e);
            },
            Ok(greeting) => greeting,
        };
        if greeting.api_version != API_VERSION {
            return Err(Error::ApiVersion(greeting.api_version));
        }
        Ok(
            Client {
                streams_available: greeting.streams_available,
                ready: false,
                ended: false,
                reading: Reading::MetadataLen,
            },
        )
    }

    /// The number of streams the server announced.
    pub fn streams_available(&self) -> (n: u16)
        ensures
            n == self@.streams_available,
    {
        self.streams_available
    }

    /// Whether a stream was selected.
    pub fn is_ready(&self) -> (ready: bool)
        ensures
            ready == self@.ready,
    {
        self.ready
    }

    /// Whether the sequence of frames has ended.
    pub fn is_ended(&self) -> (ended: bool)
        ensures
            ended == self@.ended,
    {
        self.ended
    }

    /// Takes note that the transport failed to read the bytes that were
    /// asked for, or ran out of time: the sequence of frames ends here.
    pub fn read_failed(&mut self)
        ensures
            final(self)@ == old(self)@.after_end(),
    {
        proof {
            use_type_invariant(&*self);
        }
        self.ended = true;
    }

    /// The bytes to send in order to select `stream_id` with a cap of
    /// `max_fps` frames per second.
    pub fn select_request(stream_id: u16, max_fps: u8) -> (request: Vec<u8>)
        ensures
            request@ == (StreamSelect { stream_id, max_fps }).wire(),
    {
        let select = StreamSelect { stream_id, max_fps };
        select.encode()
    }

    /// Completes the selection of `stream_id` with the server's reply. The
    /// reply has to decode and to name the stream that was asked for; then,
    /// and only then, the client becomes ready to read frames. A sequence of
    /// frames that has ended stays ended.
    pub fn select_stream(&mut self, stream_id: u16, reply: &[u8]) -> (selected: Result<
        StreamInfo,
        Error,
    >)
        ensures
            selected == accept_stream_info(stream_id, reply@),
            selected matches Ok(info) ==> info.id == stream_id,
            final(self)@ == old(self)@.after_select(selected is Ok),
    {
        proof {
            use_type_invariant(&*self);
        }
        let info = match StreamInfo::decode(reply) {
            Err(e) => {
                return Err(e);
            },
            Ok(info) => info,
        };
        if info.id == stream_id {
            self.ready = true;
            Ok(info)
        } else {
            Err(Error::InvalidStream)
        }
    }

    /// The number of bytes to read from the server next, or `None` once the
    /// sequence of frames has ended. Before a stream was selected the answer
    /// is `NotReady`, and with that error the sequence ends.
    pub fn wanted(&mut self) -> (wanted: Result<Option<usize>, Error>)
        ensures
            final(self)@ == old(self)@.after_wanted(),
            old(self)@.ended ==> wanted == Ok::<Option<usize>, Error>(None),
            !old(self)@.ended && !old(self)@.ready ==> wanted == Err::<Option<usize>, Error>(
                Error::NotReady,
            ),
            !old(self)@.ended && old(self)@.ready ==> (wanted matches Ok(Some(n)) && n == old(
                self,
            )@.reading.wanted()),
            wanted is Err ==> final(self)@.ended,
            old(self)@.ended ==> final(self)@ == old(self)@,
    {
        proof {
            use_type_invariant(&*self);
        }
        if self.ended {
            return Ok(None);
        }
        if !self.ready {
            self.ended = true;
            return Err(Error::NotReady);
        }
        match &self.reading {
            Reading::MetadataLen => Ok(Some(BLOB_PREFIX_LEN)),
            Reading::Metadata { len } => Ok(Some(*len)),
            Reading::DataLen { metadata } => Ok(Some(BLOB_PREFIX_LEN)),
            Reading::Data { metadata, len } => Ok(Some(*len)),
        }
    }

    /// Takes the bytes that were read from the server, as many as `wanted`
    /// asked for, and returns the frame if they complete one.
    ///
    /// Before a stream was selected the answer is `NotReady`; another number
    /// of bytes than was asked for is answered with `Truncated`. Either error
    /// ends the sequence of frames. Once it has ended, by an error found here
    /// or reported by the transport, every call answers `Ended` and changes
    /// nothing: no frame is ever put together from what follows an error.
    pub fn read_next(&mut self, bytes: Vec<u8>) -> (read: Result<ReadStep, Error>)
        ensures
            final(self)@ == old(self)@.after_read(bytes@),
            old(self)@.ended ==> read matches Ok(ReadStep::Ended),
            !old(self)@.ended ==> match old(self)@.read_error(bytes@.len()) {
                Some(e) => read matches Err(d) && d == e,
                None => match old(self)@.reading.completed(bytes@) {
                    Some(frame) => read matches Ok(ReadStep::Complete(f)) && f@ == frame,
                    None => read matches Ok(ReadStep::Pending),
                },
            },
            read is Err ==> final(self)@.ended,
            old(self)@.ended ==> final(self)@ == old(self)@,
    {
        proof {
            use_type_invariant(&*self);
        }
        if self.ended {
            return Ok(ReadStep::Ended);
        }
        if !self.ready {
            self.ended = true;
            return Err(Error::NotReady);
        }
        let expected: usize = match &self.reading {
            Reading::MetadataLen => BLOB_PREFIX_LEN,
            Reading::Metadata { len } => *len,
            Reading::DataLen { metadata } => BLOB_PREFIX_LEN,
            Reading::Data { metadata, len } => *len,
        };
        if bytes.len() != expected {
            self.ended = true;
            return Err(Error::Decode(DecodeError::Truncated));
        }
        let mut reading = Reading::MetadataLen;
        std::mem::swap(&mut self.reading, &mut reading);
        match reading {
            Reading::MetadataLen => {
                let len: usize = get_le32(bytes.as_slice(), 0) as usize;
                if len == 0 {
                    self.reading = Reading::DataLen { metadata: None };
                } else {
                    self.reading = Reading::Metadata { len };
                }
                Ok(ReadStep::Pending)
            },
            Reading::Metadata { len } => {
                self.reading = Reading::DataLen { metadata: Some(bytes) };
                Ok(ReadStep::Pending)
            },
            Reading::DataLen { metadata } => {
                let len: usize = get_le32(bytes.as_slice(), 0) as usize;
                if len == 0 {
                    let frame = Frame {
                        metadata: match metadata {
                            Some(m) => Some(Arc::new(m)),
                            None => None,
                        },
                        data: Arc::new(Vec::new()),
                    };
                    Ok(ReadStep::Complete(frame))
                } else {
                    self.reading = Reading::Data { metadata, len };
                    Ok(ReadStep::Pending)
                }
            },
            Reading::Data { metadata, len } => {
                let frame = Frame {
                    metadata: match metadata {
                        Some(m) => Some(Arc::new(m)),
                        None => None,
                    },
                    data: Arc::new(bytes),
                };
                Ok(ReadStep::Complete(frame))
            },
        }
    }
}

/// The end is final. Whatever an ended client is asked or told, it stays as
/// it is: asked for the bytes it wants, handed bytes, or told of a failed
/// read, it does not change, and a selection cannot bring the sequence of
/// frames back.
pub proof fn end_is_final(client: ClientView, bytes: Seq<u8>, accepted: bool)
    requires
        client.ended,
    ensures
        client.after_wanted() == client,
        client.after_read(bytes) == client,
        client.after_end() == client,
        client.after_select(accepted).ended,
{
}

/// The first error is the end. A client that has to answer with an error,
/// because no stream was selected or because it was handed another number
/// of bytes than it asked for, has ended afterwards, and so has a client
/// that was told of a failed read. Nothing but an error ends the sequence.
pub proof fn first_error_is_the_end(client: ClientView, bytes: Seq<u8>, accepted: bool)
    requires
        !client.ended,
    ensures
        client.after_end().ended,
        client.after_wanted().ended <==> !client.ready,
        client.after_read(bytes).ended <==> client.read_error(bytes.len()) is Some,
        !client.after_select(accepted).ended,
{
}

/// A reading client follows the wire format. Handed the bytes it asked for,
/// it stays in a sound state; as long as no frame is complete, the bytes are
/// added to what was read of the current frame; and a completed frame is
/// the one whose encoding is exactly the bytes read since the previous
/// frame. Such a frame fits the wire and never carries metadata of length
/// zero.
pub proof fn reading_follows_the_wire(reading: ReadingView, bytes: Seq<u8>)
    requires
        reading.sound(),
        bytes.len() == reading.wanted(),
    ensures
        reading.after(bytes).sound(),
        match reading.completed(bytes) {
            Some(frame) => {
                &&& reading.after(bytes) == ReadingView::MetadataLen
                &&& frame_wire(frame) == reading.consumed() + bytes
                &&& frame_size_error(frame) is None
                &&& frame.metadata != Some(Seq::<u8>::empty())
            },
            None => {
                &&& reading.after(bytes) != ReadingView::MetadataLen
                &&& reading.after(bytes).consumed() == reading.consumed() + bytes
            },
        },
{
    match reading {
        ReadingView::MetadataLen => {
            le32_roundtrip(0, bytes[0], bytes[1], bytes[2], bytes[3]);
            assert(bytes =~= le32(from_le32(bytes[0], bytes[1], bytes[2], bytes[3])));
            assert(reading.after(bytes).consumed() =~= reading.consumed() + bytes);
        },
        ReadingView::Metadata { len } => {
            assert(reading.after(bytes).consumed() =~= reading.consumed() + bytes);
        },
        ReadingView::DataLen { metadata } => {
            le32_roundtrip(0, bytes[0], bytes[1], bytes[2], bytes[3]);
            assert(bytes =~= le32(from_le32(bytes[0], bytes[1], bytes[2], bytes[3])));
            match reading.completed(bytes) {
                Some(frame) => {
                    assert(frame_wire(frame) =~= reading.consumed() + bytes);
                },
                None => {
                    assert(reading.after(bytes).consumed() =~= reading.consumed() + bytes);
                },
            }
        },
        ReadingView::Data { metadata, len } => {
            let frame = reading.completed(bytes).unwrap();
            assert(frame_wire(frame) =~= reading.consumed() + bytes);
        },
    }
}

/// Reading piece by piece and decoding a whole buffer are the same thing:
/// from between two frames, a client reads from the front of any bytes
/// exactly the frame that `parse_frame` finds there, using the same number of
/// bytes, and it runs out of bytes exactly where `parse_frame` reports a
/// truncated frame.
pub proof fn reading_agrees_with_parsing(bytes: Seq<u8>)
    ensures
        ReadingView::MetadataLen.frame_from(bytes) == match parse_frame(bytes) {
            Ok(found) => Some(found),
            Err(_) => None::<(FrameView, nat)>,
        },
{
    reveal_with_fuel(ReadingView::frame_from, 5);
    if bytes.len() >= 4 {
        let m: int = from_le32(bytes[0], bytes[1], bytes[2], bytes[3]) as int;
        let head = bytes.take(4);
        assert(head[0] == bytes[0] && head[1] == bytes[1] && head[2] == bytes[2] && head[3]
            == bytes[3]);
        let rest = bytes.skip(4);
        if m == 0 {
            if rest.len() >= 4 {
                let second = rest.take(4);
                assert(second[0] == bytes[4] && second[1] == bytes[5] && second[2] == bytes[6]
                    && second[3] == bytes[7]);
                let d: int = from_le32(bytes[4], bytes[5], bytes[6], bytes[7]) as int;
                let tail = rest.skip(4);
                if d == 0 {
                    assert(bytes.subrange(8, 8) =~= Seq::<u8>::empty());
                } else if tail.len() >= d {
                    assert(tail.take(d) =~= bytes.subrange(8, 8 + d));
                }
            }
        } else if rest.len() >= m {
            let metadata = rest.take(m);
            assert(metadata =~= bytes.subrange(4, 4 + m));
            let after_metadata = rest.skip(m);
            if after_metadata.len() >= 4 {
                let second = after_metadata.take(4);
                assert(second[0] == bytes[4 + m] && second[1] == bytes[5 + m] && second[2]
                    == bytes[6 + m] && second[3] == bytes[7 + m]);
                let d: int = from_le32(bytes[4 + m], bytes[5 + m], bytes[6 + m], bytes[7 + m])
                    as int;
                let tail = after_metadata.skip(4);
                if d == 0 {
                    assert(bytes.subrange(8 + m, 8 + m) =~= Seq::<u8>::empty());
                } else if tail.len() >= d {
                    assert(tail.take(d) =~= bytes.subrange(8 + m, 8 + m + d));
                }
            }
        }
    }
}

/// Two frames that can both be sent and look the same on the wire are the
/// same frame, as long as neither carries metadata of length zero. So the
/// frame a client puts together from the bytes of one encoded frame is the
/// frame that was encoded.
pub proof fn frame_wire_is_injective(a: FrameView, b: FrameView)
    requires
        frame_size_error(a) is None,
        frame_size_error(b) is None,
        a.metadata != Some(Seq::<u8>::empty()),
        b.metadata != Some(Seq::<u8>::empty()),
        frame_wire(a) == frame_wire(b),
    ensures
        a == b,
{
    frame_roundtrip(a, Seq::empty());
    frame_roundtrip(b, Seq::empty());
}

/// A client accepts as reply to its selection of `stream_id` exactly the
/// description of a stream with that id: the id it is told is the id it
/// asked for.
pub proof fn selection_is_echoed(stream_id: u16, info: StreamInfo, rest: Seq<u8>)
    ensures
        accept_stream_info(stream_id, info.wire() + rest) == if info.id == stream_id {
            Ok::<StreamInfo, Error>(info)
        } else {
            Err::<StreamInfo, Error>(Error::InvalidStream)
        },
{
    crate::wire::stream_info_roundtrip(info, rest);
}

} // verus!
