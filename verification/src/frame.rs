//! Frames: one encoded picture each, with optional metadata.

use std::sync::Arc;
use vstd::prelude::*;
use vstd::std_specs::convert::FromSpecImpl;

verus! {

/// Largest payload the 32-bit length fields of the wire format can announce.
pub const MAX_BLOB_LEN: u32 = 0xffff_ffff;

/// What a frame holds, as plain byte sequences.
pub struct FrameView {
    pub metadata: Option<Seq<u8>>,
    pub data: Seq<u8>,
}

/// One encoded picture with optional metadata. Both buffers are opaque to the
/// library and shared by reference between all subscribers of a stream.
#[derive(Debug)]
pub struct Frame {
    /// Optional metadata, encoded in a way known to the remote side.
    pub metadata: Option<Arc<Vec<u8>>>,
    /// The picture, encoded in the format of its stream.
    pub data: Arc<Vec<u8>>,
}

impl View for Frame {
    type V = FrameView;

    open spec fn view(&self) -> FrameView {
        FrameView {
            metadata: match self.metadata {
                Some(m) => Some(m@),
                None => None,
            },
            data: self.data@,
        }
    }
}

impl Clone for Frame {
    /// A second handle on the same two buffers.
    fn clone(&self) -> (other: Self)
        ensures
            other@ == self@,
    {
        let metadata = match &self.metadata {
            Some(m) => Some(m.clone()),
            None => None,
        };
        Frame { metadata, data: self.data.clone() }
    }
}

impl From<Vec<u8>> for Frame {
    /// A frame without metadata that takes over `data`.
    fn from(data: Vec<u8>) -> (frame: Self) {
        Frame { metadata: None, data: Arc::new(data) }
    }
}

impl FromSpecImpl<Vec<u8>> for Frame {
    open spec fn obeys_from_spec() -> bool {
        true
    }

    open spec fn from_spec(data: Vec<u8>) -> Self {
        Frame { metadata: None, data: Arc::new(data) }
    }
}

impl From<Arc<Vec<u8>>> for Frame {
    /// A frame without metadata that shares `data`.
    fn from(data: Arc<Vec<u8>>) -> (frame: Self) {
        Frame { metadata: None, data }
    }
}

impl FromSpecImpl<Arc<Vec<u8>>> for Frame {
    open spec fn obeys_from_spec() -> bool {
        true
    }

    open spec fn from_spec(data: Arc<Vec<u8>>) -> Self {
        Frame { metadata: None, data }
    }
}

impl Frame {
    /// A frame without metadata.
    pub fn new(data: Arc<Vec<u8>>) -> (frame: Self)
        ensures
            frame@ == (FrameView { metadata: None, data: data@ }),
    {
        Frame { metadata: None, data }
    }

    /// A frame that carries metadata next to its data.
    pub fn new_with_metadata(metadata: Arc<Vec<u8>>, data: Arc<Vec<u8>>) -> (frame: Self)
        ensures
            frame@ == (FrameView { metadata: Some(metadata@), data: data@ }),
    {
        Frame { metadata: Some(metadata), data }
    }
}

} // verus!
