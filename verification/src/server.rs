//! The stream registry.
//!
//! A [`Server`] holds the streams in the order they were added and, for each
//! stream, one [`FrameSlot`](crate::slot::FrameSlot) per subscribed client.
//! A producer's frame is put into the slot of every client that is
//! subscribed at that moment; each connection takes the frames out of its
//! own slot. The registry never waits for anyone: whoever shares it between
//! threads puts it behind a lock and holds the lock for one call at a time.

use crate::error::Error;
use crate::format::Format;
use crate::frame::{Frame, FrameView, MAX_BLOB_LEN};
use crate::slot::{FrameSlot, SlotPoll, SlotView};
use crate::wire::{check_frame, frame_size_error, metadata_bytes, Greetings, StreamInfo};
use crate::API_VERSION;
use std::collections::BTreeMap;
use std::time::Duration;
use vstd::prelude::*;
use vstd::std_specs::btree::spec_keys_iter;
use vstd::std_specs::iter::IteratorSpec;

verus! {

/// A stream as the registry knows it, as plain values: its fixed
/// description and the slots of the clients that subscribed to it.
pub struct StreamView {
    pub format: Format,
    pub width: u16,
    pub height: u16,
    pub clients: Map<usize, SlotView>,
}

impl StreamView {
    /// A stream nobody subscribed to yet.
    pub open spec fn fresh(format: Format, width: u16, height: u16) -> StreamView {
        StreamView { format, width, height, clients: Map::empty() }
    }

    /// The description a client is given when it selects this stream under
    /// `id`.
    pub open spec fn info(self, id: u16) -> StreamInfo {
        StreamInfo { id, format: self.format, width: self.width, height: self.height }
    }

    /// The stream with another set of client slots.
    pub open spec fn with_clients(self, clients: Map<usize, SlotView>) -> StreamView {
        StreamView { format: self.format, width: self.width, height: self.height, clients }
    }

    /// The stream after `frame` was put into the slot of every client that is
    /// subscribed at this moment.
    pub open spec fn after_deliver(self, frame: FrameView) -> StreamView {
        self.with_clients(self.clients.map_values(|slot: SlotView| slot.after_set(frame)))
    }

    /// The stream after every slot was closed.
    pub open spec fn after_close(self) -> StreamView {
        self.with_clients(self.clients.map_values(|slot: SlotView| slot.after_close()))
    }
}

spec fn slot_fits(slot: SlotView) -> bool {
    slot.current matches Some(frame) ==> frame_size_error(frame) is None
}

spec fn all_fit(clients: Map<usize, FrameSlot>) -> bool {
    forall|id: usize| clients.contains_key(id) ==> slot_fits(#[trigger] clients[id]@)
}

spec fn slots_of(clients: Map<usize, FrameSlot>) -> Map<usize, SlotView> {
    clients.map_values(|slot: FrameSlot| slot@)
}

/// One stream of the registry with the slots of its subscribers, keyed by
/// client id.
struct StreamEntry {
    format: Format,
    width: u16,
    height: u16,
    clients: BTreeMap<usize, FrameSlot>,
}

impl View for StreamEntry {
    type V = StreamView;

    closed spec fn view(&self) -> StreamView {
        StreamView {
            format: self.format,
            width: self.width,
            height: self.height,
            clients: slots_of(self.clients@),
        }
    }
}

impl StreamEntry {
    /// Holds of every stream: every frame that waits in a slot fits the
    /// wire.
    #[verifier::type_invariant]
    spec fn sound(self) -> bool {
        all_fit(self.clients@)
    }

    fn new(format: Format, width: u16, height: u16) -> (entry: Self)
        ensures
            entry@ == StreamView::fresh(format, width, height),
    {
        let entry = StreamEntry { format, width, height, clients: BTreeMap::new() };
        assert(slots_of(entry.clients@) =~= Map::empty());
        entry
    }

    fn info(&self, id: u16) -> (info: StreamInfo)
        ensures
            info == self@.info(id),
    {
        StreamInfo { id, format: self.format, width: self.width, height: self.height }
    }

    fn take_clients(&mut self) -> (clients: BTreeMap<usize, FrameSlot>)
        ensures
            clients == old(self).clients,
            all_fit(clients@),
            final(self).clients@ == Map::<usize, FrameSlot>::empty(),
            final(self).format == old(self).format,
            final(self).width == old(self).width,
            final(self).height == old(self).height,
    {
        proof {
            use_type_invariant(&*self);
        }
        let mut clients: BTreeMap<usize, FrameSlot> = BTreeMap::new();
        std::mem::swap(&mut self.clients, &mut clients);
        clients
    }

    fn deliver(&mut self, frame: &Frame)
        requires
            frame_size_error(frame@) is None,
        ensures
            final(self)@ == old(self)@.after_deliver(frame@),
    {
        let mut clients = self.take_clients();
        deliver_to_all(&mut clients, frame);
        self.clients = clients;
    }

    fn close_all(&mut self)
        ensures
            final(self)@ == old(self)@.after_close(),
    {
        let mut clients = self.take_clients();
        close_every(&mut clients);
        self.clients = clients;
    }

    fn subscribe(&mut self, id: usize)
        ensures
            final(self)@ == old(self)@.with_clients(
                old(self)@.clients.insert(id, SlotView::fresh()),
            ),
    {
        let mut clients = self.take_clients();
        let _ = clients.insert(id, FrameSlot::new());
        self.clients = clients;
        assert(slots_of(self.clients@) =~= slots_of(old(self).clients@).insert(
            id,
            SlotView::fresh(),
        ));
    }

    fn unsubscribe(&mut self, id: usize)
        ensures
            final(self)@ == old(self)@.with_clients(old(self)@.clients.remove(id)),
    {
        let mut clients = self.take_clients();
        let _ = clients.remove(&id);
        self.clients = clients;
        assert(slots_of(self.clients@) =~= slots_of(old(self).clients@).remove(id));
    }

    fn poll(&mut self, id: usize) -> (poll: SlotPoll)
        ensures
            match old(self)@.clients.get(id) {
                Some(slot) => {
                    &&& final(self)@ == old(self)@.with_clients(
                        old(self)@.clients.insert(id, slot.after_get()),
                    )
                    &&& match poll {
                        SlotPoll::Ready(frame) => slot.taken() == Some(frame@),
                        SlotPoll::Empty => !slot.closed && slot.current is None,
                        SlotPoll::Closed => slot.closed,
                    }
                },
                None => final(self)@ == old(self)@ && poll is Closed,
            },
            poll matches SlotPoll::Ready(frame) ==> frame_size_error(frame@) is None,
    {
        let mut clients = self.take_clients();
        let poll = match clients.remove(&id) {
            Some(slot) => {
                let mut slot = slot;
                let poll = slot.get();
                let _ = clients.insert(id, slot);
                assert(slots_of(clients@) =~= slots_of(old(self).clients@).insert(
                    id,
                    old(self).clients@[id]@.after_get(),
                ));
                poll
            },
            None => {
                assert(clients@ =~= old(self).clients@);
                SlotPoll::Closed
            },
        };
        self.clients = clients;
        poll
    }
}

/// The ids of the subscribed clients, each once.
fn client_ids(clients: &BTreeMap<usize, FrameSlot>) -> (ids: Vec<usize>)
    ensures
        ids@.no_duplicates(),
        ids@.to_set() == clients@.dom(),
{
    let mut ids: Vec<usize> = Vec::new();
    for id in iter: clients.keys()
        invariant
            ids@.len() == iter.index(),
            forall|j: int| 0 <= j < ids@.len() ==> ids@[j] == *iter.seq()[j],
    {
        ids.push(*id);
    }
    assert(ids@ =~= spec_keys_iter(clients).remaining().unref());
    ids
}

/// The slots after each of them went through one operation: `ids` lists
/// every client once, slots of clients before `done` in the list have
/// changed as `change` says, the others are as they were.
spec fn changed_up_to(
    before: Map<usize, FrameSlot>,
    now: Map<usize, FrameSlot>,
    ids: Seq<usize>,
    done: int,
    change: spec_fn(SlotView) -> SlotView,
) -> bool {
    &&& ids.no_duplicates()
    &&& ids.to_set() == before.dom()
    &&& now.dom() == before.dom()
    &&& forall|j: int| 0 <= j < done && j < ids.len() ==> (#[trigger] now[ids[j]])@ == change(before[ids[j]]@)
    &&& forall|j: int| done <= j < ids.len() ==> (#[trigger] now[ids[j]])@ == before[ids[j]]@
}

proof fn lemma_all_changed(
    before: Map<usize, FrameSlot>,
    now: Map<usize, FrameSlot>,
    ids: Seq<usize>,
    change: spec_fn(SlotView) -> SlotView,
)
    requires
        changed_up_to(before, now, ids, ids.len() as int, change),
    ensures
        slots_of(now) == slots_of(before).map_values(change),
{
    assert forall|id: usize| now.contains_key(id) implies (#[trigger] now[id])@ == change(
        before[id]@,
    ) by {
        assert(ids.to_set().contains(id));
        let j = choose|j: int| 0 <= j < ids.len() && ids[j] == id;
        assert(now[ids[j]]@ == change(before[ids[j]]@));
    }
    assert(slots_of(now) =~= slots_of(before).map_values(change));
}

fn deliver_to_all(clients: &mut BTreeMap<usize, FrameSlot>, frame: &Frame)
    requires
        frame_size_error(frame@) is None,
    ensures
        all_fit(final(clients)@),
        slots_of(final(clients)@) == slots_of(old(clients)@).map_values(
            |slot: SlotView| slot.after_set(frame@),
        ),
{
    let ghost change = |slot: SlotView| slot.after_set(frame@);
    let ids = client_ids(clients);
    let mut i: usize = 0;
    while i < ids.len()
        invariant
            i <= ids@.len(),
            changed_up_to(old(clients)@, clients@, ids@, i as int, change),
            change == |slot: SlotView| slot.after_set(frame@),
            frame_size_error(frame@) is None,
        decreases ids@.len() - i,
    {
        let id: usize = ids[i];
        assert(ids@.to_set().contains(ids@[i as int]));
        let ghost before = clients@;
        match clients.remove(&id) {
            Some(slot) => {
                let mut slot = slot;
                slot.set(frame.clone());
                let _ = clients.insert(id, slot);
            },
            None => {},
        }
        assert(clients@.dom() =~= before.dom());
        assert forall|j: int| 0 <= j < ids@.len() && j != i implies clients@[ids@[j]]
            == before[ids@[j]] by {
            assert(ids@[j] != ids@[i as int]);
        }
        i = i + 1;
    }
    proof {
        lemma_all_changed(old(clients)@, clients@, ids@, change);
        assert forall|id: usize| clients@.contains_key(id) implies slot_fits(
            #[trigger] clients@[id]@,
        ) by {
            assert(slots_of(clients@)[id] == change(slots_of(old(clients)@)[id]));
        }
    }
}

fn close_every(clients: &mut BTreeMap<usize, FrameSlot>)
    requires
        all_fit(old(clients)@),
    ensures
        all_fit(final(clients)@),
        slots_of(final(clients)@) == slots_of(old(clients)@).map_values(
            |slot: SlotView| slot.after_close(),
        ),
{
    let ghost change = |slot: SlotView| slot.after_close();
    let ids = client_ids(clients);
    let mut i: usize = 0;
    while i < ids.len()
        invariant
            i <= ids@.len(),
            changed_up_to(old(clients)@, clients@, ids@, i as int, change),
            change == |slot: SlotView| slot.after_close(),
            all_fit(old(clients)@),
        decreases ids@.len() - i,
    {
        let id: usize = ids[i];
        assert(ids@.to_set().contains(ids@[i as int]));
        let ghost before = clients@;
        match clients.remove(&id) {
            Some(slot) => {
                let mut slot = slot;
                slot.close();
                let _ = clients.insert(id, slot);
            },
            None => {},
        }
        assert(clients@.dom() =~= before.dom());
        assert forall|j: int| 0 <= j < ids@.len() && j != i implies clients@[ids@[j]]
            == before[ids@[j]] by {
            assert(ids@[j] != ids@[i as int]);
        }
        i = i + 1;
    }
    proof {
        lemma_all_changed(old(clients)@, clients@, ids@, change);
        assert forall|id: usize| clients@.contains_key(id) implies slot_fits(
            #[trigger] clients@[id]@,
        ) by {
            assert(slots_of(clients@)[id] == change(slots_of(old(clients)@)[id]));
            assert(slot_fits(old(clients)@[id]@));
        }
    }
}

/// Most streams one server can hold.
pub const MAX_STREAMS: u16 = 0xffff;

/// Number of clients served at once unless `Server::set_max_clients` says
/// otherwise.
pub const DEFAULT_MAX_CLIENTS: usize = 16;

/// A server as plain values.
pub struct ServerView {
    /// The streams in the order they were added; a stream's id is its
    /// position.
    pub streams: Seq<StreamView>,
    /// The id the next admitted client gets.
    pub next_client_id: usize,
    /// How many connections may be served at once.
    pub max_clients: usize,
    /// The limit on every single socket operation.
    pub timeout: Duration,
}

impl ServerView {
    /// A server as `Server::new` makes it.
    pub open spec fn fresh(timeout: Duration) -> ServerView {
        ServerView {
            streams: Seq::empty(),
            next_client_id: 0,
            max_clients: DEFAULT_MAX_CLIENTS,
            timeout,
        }
    }

    /// Whether a stream is registered under `id`.
    pub open spec fn has_stream(self, id: u16) -> bool {
        id < self.streams.len()
    }

    /// The server with other streams.
    pub open spec fn with_streams(self, streams: Seq<StreamView>) -> ServerView {
        ServerView {
            streams,
            next_client_id: self.next_client_id,
            max_clients: self.max_clients,
            timeout: self.timeout,
        }
    }

    /// The server with the stream `id` replaced.
    pub open spec fn with_stream(self, id: u16, stream: StreamView) -> ServerView {
        self.with_streams(self.streams.update(id as int, stream))
    }

    /// The slot of client `client_id` on stream `stream_id`, if that client
    /// is subscribed there.
    pub open spec fn slot(self, stream_id: u16, client_id: usize) -> Option<SlotView> {
        if self.has_stream(stream_id) {
            self.streams[stream_id as int].clients.get(client_id)
        } else {
            None
        }
    }

    /// The server after one more stream was added.
    pub open spec fn after_add_stream(self, format: Format, width: u16, height: u16) -> ServerView {
        self.with_streams(self.streams.push(StreamView::fresh(format, width, height)))
    }

    /// The server after `client_id` subscribed to the stream `stream_id` with
    /// a fresh slot.
    pub open spec fn after_add_client(self, stream_id: u16, client_id: usize) -> ServerView {
        let stream = self.streams[stream_id as int];
        self.with_stream(
            stream_id,
            stream.with_clients(stream.clients.insert(client_id, SlotView::fresh())),
        )
    }

    /// The server after `client_id` left the stream `stream_id`; the same
    /// server if there is no such stream.
    pub open spec fn after_remove_client(self, stream_id: u16, client_id: usize) -> ServerView {
        if self.has_stream(stream_id) {
            let stream = self.streams[stream_id as int];
            self.with_stream(stream_id, stream.with_clients(stream.clients.remove(client_id)))
        } else {
            self
        }
    }

    /// Why a frame for `stream_id` is refused, if it is: a blob that is too
    /// large, metadata before data, and only then a stream that does not
    /// exist.
    pub open spec fn send_error(self, stream_id: u16, frame: FrameView) -> Option<Error> {
        match frame_size_error(frame) {
            Some(e) => Some(e),
            None => if self.has_stream(stream_id) {
                None
            } else {
                Some(Error::InvalidStream)
            },
        }
    }

    /// The server after `frame` was delivered to every client subscribed to
    /// `stream_id` at that moment.
    pub open spec fn after_send(self, stream_id: u16, frame: FrameView) -> ServerView {
        self.with_stream(stream_id, self.streams[stream_id as int].after_deliver(frame))
    }

    /// The server after client `client_id` looked into its slot on
    /// `stream_id`; the same server if it has no slot there.
    pub open spec fn after_get(self, stream_id: u16, client_id: usize) -> ServerView {
        match self.slot(stream_id, client_id) {
            Some(slot) => {
                let stream = self.streams[stream_id as int];
                self.with_stream(
                    stream_id,
                    stream.with_clients(stream.clients.insert(client_id, slot.after_get())),
                )
            },
            None => self,
        }
    }

    /// The server after every slot of every stream was closed.
    pub open spec fn after_close(self) -> ServerView {
        self.with_streams(
            Seq::new(self.streams.len(), |i: int| self.streams[i].after_close()),
        )
    }

    /// The server after one stream was added for each entry of `added`
    /// (format, width, height), in order.
    pub open spec fn after_add_streams(self, added: Seq<(Format, u16, u16)>) -> ServerView
        decreases added.len(),
    {
        if added.len() == 0 {
            self
        } else {
            self.after_add_streams(added.drop_last()).after_add_stream(
                added.last().0,
                added.last().1,
                added.last().2,
            )
        }
    }

    /// The id handed out after `self.next_client_id`: one more, starting over
    /// at zero when the counter is exhausted.
    pub open spec fn following_client_id(self) -> usize {
        if self.next_client_id == usize::MAX {
            0
        } else {
            (self.next_client_id + 1) as usize
        }
    }

    /// The greeting a client is sent.
    pub open spec fn greeting(self) -> Greetings {
        Greetings { api_version: API_VERSION, streams_available: self.streams.len() as u16 }
    }
}

/// Handle on one stream of a server: it remembers the stream's id.
#[derive(Clone, Copy, Debug, PartialEq, Eq, Structural)]
pub struct Stream {
    id: u16,
}

impl Stream {
    /// The id of the stream.
    pub closed spec fn spec_id(&self) -> u16 {
        self.id
    }

    /// The id of the stream.
    #[verifier::when_used_as_spec(spec_id)]
    pub fn id(&self) -> (id: u16)
        ensures
            id == self.spec_id(),
    {
        self.id
    }

    /// Sends a frame to this stream on `server`: shorthand for
    /// `server.send_frame(self.id(), frame)`.
    pub fn send_frame(&self, server: &mut Server, frame: Frame) -> (sent: Result<(), Error>)
        ensures
            match old(server)@.send_error(self.id(), frame@) {
                Some(e) => sent == Err::<(), Error>(e) && final(server)@ == old(server)@,
                None => sent is Ok && final(server)@ == old(server)@.after_send(
                    self.id(),
                    frame@,
                ),
            },
    {
        server.send_frame(self.id, frame)
    }
}

/// The stream registry of a broadcasting server together with its settings.
/// It holds the streams, and for each stream the mailbox of every subscribed
/// client. All operations run to completion without waiting.
pub struct Server {
    streams: Vec<StreamEntry>,
    next_client: usize,
    max_clients: usize,
    timeout: Duration,
}

impl View for Server {
    type V = ServerView;

    closed spec fn view(&self) -> ServerView {
        ServerView {
            streams: Seq::new(self.streams@.len(), |i: int| self.streams@[i]@),
            next_client_id: self.next_client,
            max_clients: self.max_clients,
            timeout: self.timeout,
        }
    }
}

impl Server {
    /// Holds of every server: it has no more than `MAX_STREAMS` streams.
    #[verifier::type_invariant]
    spec fn within_limit(self) -> bool {
        self.streams@.len() <= MAX_STREAMS
    }

    fn take_streams(&mut self) -> (streams: Vec<StreamEntry>)
        ensures
            streams == old(self).streams,
            streams@.len() <= MAX_STREAMS,
            final(self).streams@.len() == 0,
            final(self).next_client == old(self).next_client,
            final(self).max_clients == old(self).max_clients,
            final(self).timeout == old(self).timeout,
    {
        proof {
            use_type_invariant(&*self);
        }
        let mut streams: Vec<StreamEntry> = Vec::new();
        std::mem::swap(&mut self.streams, &mut streams);
        streams
    }

    /// A server without streams that will use `timeout` for its socket
    /// operations and serve up to `DEFAULT_MAX_CLIENTS` clients at once.
    pub fn new(timeout: Duration) -> (server: Self)
        ensures
            server@ == ServerView::fresh(timeout),
    {
        let server = Server {
            streams: Vec::new(),
            next_client: 0,
            max_clients: DEFAULT_MAX_CLIENTS,
            timeout,
        };
        assert(server@.streams =~= Seq::empty());
        server
    }

    /// Sets how many clients may be served at once.
    pub fn set_max_clients(&mut self, max_clients: usize)
        ensures
            final(self)@ == (ServerView { max_clients, ..old(self)@ }),
    {
        proof {
            use_type_invariant(&*self);
        }
        self.max_clients = max_clients;
    }

    /// How many clients may be served at once.
    pub fn max_clients(&self) -> (n: usize)
        ensures
            n == self@.max_clients,
    {
        self.max_clients
    }

    /// The limit on every single socket operation.
    pub fn timeout(&self) -> (timeout: Duration)
        ensures
            timeout == self@.timeout,
    {
        self.timeout
    }

    /// Adds a stream. Its id is the number of streams added before it. Once
    /// `MAX_STREAMS` streams exist, no more are taken.
    pub fn add_stream(&mut self, format: Format, width: u16, height: u16) -> (added: Result<
        Stream,
        Error,
    >)
        ensures
            old(self)@.streams.len() >= MAX_STREAMS ==> added == Err::<Stream, Error>(
                Error::TooManyStreams,
            ) && final(self)@ == old(self)@,
            old(self)@.streams.len() < MAX_STREAMS ==> (added matches Ok(stream) && stream.id()
                == old(self)@.streams.len()) && final(self)@ == old(self)@.after_add_stream(
                format,
                width,
                height,
            ),
            final(self)@.streams.len() <= MAX_STREAMS,
    {
        proof {
            use_type_invariant(&*self);
        }
        if self.streams.len() >= MAX_STREAMS as usize {
            return Err(Error::TooManyStreams);
        }
        let id: u16 = self.streams.len() as u16;
        let mut streams = self.take_streams();
        streams.push(StreamEntry::new(format, width, height));
        self.streams = streams;
        assert(self@.streams =~= old(self)@.streams.push(
            StreamView::fresh(format, width, height),
        ));
        Ok(Stream { id })
    }

    /// The number of streams.
    pub fn stream_count(&self) -> (count: u16)
        ensures
            count == self@.streams.len(),
    {
        proof {
            use_type_invariant(self);
        }
        self.streams.len() as u16
    }

    /// Hands out the next client id. Ids count up from zero; no id is handed
    /// out twice before the counter has run through all of `usize`.
    pub fn next_client_id(&mut self) -> (id: usize)
        ensures
            id == old(self)@.next_client_id,
            final(self)@ == (ServerView {
                next_client_id: old(self)@.following_client_id(),
                ..old(self)@
            }),
            id < usize::MAX ==> final(self)@.next_client_id == id + 1,
    {
        proof {
            use_type_invariant(&*self);
        }
        let id: usize = self.next_client;
        self.next_client = if id == usize::MAX {
            0
        } else {
            id + 1
        };
        id
    }

    /// Subscribes `client_id` to the stream `stream_id` with a fresh, empty
    /// slot. A slot the client already had there is replaced.
    pub fn add_client(&mut self, stream_id: u16, client_id: usize) -> (added: Result<(), Error>)
        ensures
            !old(self)@.has_stream(stream_id) ==> added == Err::<(), Error>(Error::InvalidStream)
                && final(self)@ == old(self)@,
            old(self)@.has_stream(stream_id) ==> added is Ok && final(self)@
                == old(self)@.after_add_client(stream_id, client_id),
    {
        let at: usize = stream_id as usize;
        if at >= self.streams.len() {
            return Err(Error::InvalidStream);
        }
        let mut streams = self.take_streams();
        streams[at].subscribe(client_id);
        self.streams = streams;
        assert(self@.streams =~= old(self)@.after_add_client(stream_id, client_id).streams);
        Ok(())
    }

    /// Removes `client_id` from the stream `stream_id`. Nothing happens if
    /// the stream or the client is not there.
    pub fn remove_client(&mut self, stream_id: u16, client_id: usize)
        ensures
            final(self)@ == old(self)@.after_remove_client(stream_id, client_id),
    {
        let at: usize = stream_id as usize;
        if at < self.streams.len() {
            let mut streams = self.take_streams();
            streams[at].unsubscribe(client_id);
            self.streams = streams;
            assert(self@.streams =~= old(self)@.after_remove_client(
                stream_id,
                client_id,
            ).streams);
        }
    }

    /// Delivers `frame` to every client that is subscribed to `stream_id`
    /// at this moment: each of their slots holds the frame afterwards,
    /// whatever it held before. A frame with a blob too large for the wire,
    /// or for a stream that does not exist, is refused and changes nothing.
    pub fn send_frame(&mut self, stream_id: u16, frame: Frame) -> (sent: Result<(), Error>)
        ensures
            match old(self)@.send_error(stream_id, frame@) {
                Some(e) => sent == Err::<(), Error>(e) && final(self)@ == old(self)@,
                None => sent is Ok && final(self)@ == old(self)@.after_send(stream_id, frame@),
            },
            sent is Ok ==> metadata_bytes(frame@).len() <= MAX_BLOB_LEN && frame@.data.len()
                <= MAX_BLOB_LEN,
    {
        match check_frame(&frame) {
            Err(e) => {
                return Err(e);
            },
            Ok(()) => {},
        }
        let at: usize = stream_id as usize;
        if at >= self.streams.len() {
            return Err(Error::InvalidStream);
        }
        let mut streams = self.take_streams();
        streams[at].deliver(&frame);
        self.streams = streams;
        assert(self@.streams =~= old(self)@.after_send(stream_id, frame@).streams);
        Ok(())
    }

    /// Looks into the slot of `client_id` on `stream_id` and takes the
    /// waiting frame out of it. A client without a slot there is told
    /// `Closed`: nothing will ever arrive for it.
    pub fn get_frame(&mut self, stream_id: u16, client_id: usize) -> (poll: SlotPoll)
        ensures
            final(self)@ == old(self)@.after_get(stream_id, client_id),
            match old(self)@.slot(stream_id, client_id) {
                Some(slot) => match poll {
                    SlotPoll::Ready(frame) => slot.taken() == Some(frame@),
                    SlotPoll::Empty => !slot.closed && slot.current is None,
                    SlotPoll::Closed => slot.closed,
                },
                None => poll is Closed,
            },
            poll matches SlotPoll::Ready(frame) ==> frame_size_error(frame@) is None,
    {
        let at: usize = stream_id as usize;
        if at >= self.streams.len() {
            return SlotPoll::Closed;
        }
        let mut streams = self.take_streams();
        let poll = streams[at].poll(client_id);
        self.streams = streams;
        assert(self@.streams =~= old(self)@.after_get(stream_id, client_id).streams);
        poll
    }

    /// Closes every slot of every stream, so that all consumers come to an
    /// end.
    pub fn close(&mut self)
        ensures
            final(self)@ == old(self)@.after_close(),
    {
        let mut streams = self.take_streams();
        let mut i: usize = 0;
        while i < streams.len()
            invariant
                i <= streams@.len(),
                streams@.len() == old(self).streams@.len(),
                forall|j: int|
                    0 <= j < i ==> streams@[j]@ == old(self).streams@[j]@.after_close(),
                forall|j: int| i <= j < streams@.len() ==> streams@[j]@ == old(self).streams@[j]@,
            decreases streams@.len() - i,
        {
            streams[i].close_all();
            i = i + 1;
        }
        self.streams = streams;
        assert(self@.streams =~= old(self)@.after_close().streams);
    }

    /// The greeting for a new connection: this library's protocol version
    /// and the current number of streams.
    pub fn greetings(&self) -> (bytes: Vec<u8>)
        ensures
            bytes@ == self@.greeting().wire(),
    {
        let greeting = Greetings {
            api_version: API_VERSION,
            streams_available: self.stream_count(),
        };
        greeting.encode()
    }

    /// The encoded description of the stream `stream_id`.
    pub fn stream_info_packed(&self, stream_id: u16) -> (packed: Result<Vec<u8>, Error>)
        ensures
            !self@.has_stream(stream_id) ==> packed == Err::<Vec<u8>, Error>(
                Error::InvalidStream,
            ),
            self@.has_stream(stream_id) ==> (packed matches Ok(bytes) && bytes@
                == self@.streams[stream_id as int].info(stream_id).wire()),
    {
        let at: usize = stream_id as usize;
        if at >= self.streams.len() {
            return Err(Error::InvalidStream);
        }
        let info = self.streams[at].info(stream_id);
        Ok(info.encode())
    }
}

/// Stream ids count up: streams added one after the other get the ids that
/// follow the streams already there, and the number of streams grows by the
/// number of streams added. On a fresh server the ids are 0, 1, 2 and so on,
/// and after `n` additions there are `n` streams.
pub proof fn stream_ids_count_up(server: ServerView, added: Seq<(Format, u16, u16)>, k: int)
    requires
        0 <= k < added.len(),
    ensures
        server.after_add_streams(added).streams.len() == server.streams.len() + added.len(),
        server.after_add_streams(added.take(k)).streams.len() == server.streams.len() + k,
        server.after_add_streams(added).streams[server.streams.len() + k] == StreamView::fresh(
            added[k].0,
            added[k].1,
            added[k].2,
        ),
    decreases added.len(),
{
    lemma_added_count(server, added);
    lemma_added_count(server, added.take(k));
    if k < added.len() - 1 {
        stream_ids_count_up(server, added.drop_last(), k);
        lemma_added_count(server, added.drop_last());
    } else {
        lemma_added_count(server, added.drop_last());
    }
}

proof fn lemma_added_count(server: ServerView, added: Seq<(Format, u16, u16)>)
    ensures
        server.after_add_streams(added).streams.len() == server.streams.len() + added.len(),
    decreases added.len(),
{
    if added.len() > 0 {
        lemma_added_count(server, added.drop_last());
    }
}

/// A frame reaches exactly the clients that are subscribed to its stream at
/// the moment it is sent. Each of them finds it in its slot in place of
/// whatever waited there; nobody joins or leaves by it; other streams are
/// untouched. A client that subscribes afterwards starts with an empty
/// slot, and a client that was removed before is not reached.
pub proof fn send_reaches_the_subscribed(
    server: ServerView,
    stream_id: u16,
    frame: FrameView,
    client_id: usize,
    other: u16,
)
    requires
        server.has_stream(stream_id),
    ensures
        server.after_send(stream_id, frame).slot(stream_id, client_id) == match server.slot(
            stream_id,
            client_id,
        ) {
            Some(slot) => Some(slot.after_set(frame)),
            None => None,
        },
        other != stream_id ==> server.after_send(stream_id, frame).slot(other, client_id)
            == server.slot(other, client_id),
        server.after_send(stream_id, frame).streams.len() == server.streams.len(),
        server.after_send(stream_id, frame).after_add_client(stream_id, client_id).slot(
            stream_id,
            client_id,
        ) == Some(SlotView::fresh()),
        server.after_remove_client(stream_id, client_id).after_send(stream_id, frame).slot(
            stream_id,
            client_id,
        ) is None,
{
}

/// A stream keeps its description for good: no operation changes the
/// format, width or height of a stream that exists, and none removes a
/// stream.
pub proof fn stream_descriptions_are_fixed(
    server: ServerView,
    id: u16,
    stream_id: u16,
    client_id: usize,
    frame: FrameView,
    format: Format,
    width: u16,
    height: u16,
)
    requires
        server.has_stream(id),
    ensures
        server.after_add_stream(format, width, height).has_stream(id),
        server.after_add_stream(format, width, height).streams[id as int].info(id)
            == server.streams[id as int].info(id),
        server.has_stream(stream_id) ==> server.after_add_client(stream_id, client_id).has_stream(
            id,
        ) && server.after_add_client(stream_id, client_id).streams[id as int].info(id)
            == server.streams[id as int].info(id),
        server.after_remove_client(stream_id, client_id).has_stream(id),
        server.after_remove_client(stream_id, client_id).streams[id as int].info(id)
            == server.streams[id as int].info(id),
        server.has_stream(stream_id) ==> server.after_send(stream_id, frame).has_stream(id)
            && server.after_send(stream_id, frame).streams[id as int].info(id)
            == server.streams[id as int].info(id),
        server.after_get(stream_id, client_id).has_stream(id),
        server.after_get(stream_id, client_id).streams[id as int].info(id)
            == server.streams[id as int].info(id),
        server.after_close().has_stream(id),
        server.after_close().streams[id as int].info(id) == server.streams[id as int].info(id),
{
}

} // verus!
