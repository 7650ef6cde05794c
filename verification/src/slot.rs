//! The mailbox between a producer and one subscriber.
//!
//! A slot holds at most one frame. Storing a frame replaces the one that
//! waits, so a slow consumer always finds the newest frame and never holds
//! the producer up. A closed slot hands out nothing.

use crate::frame::{Frame, FrameView};
use vstd::prelude::*;

verus! {

/// What a slot holds, as plain values.
pub struct SlotView {
    /// The frame waiting for the consumer, if any.
    pub current: Option<FrameView>,
    /// Whether the slot was closed. Closing is never undone.
    pub closed: bool,
}

/// What a consumer finds when it looks into its slot.
pub enum SlotPoll {
    /// A frame was waiting; the slot is empty now.
    Ready(Frame),
    /// Nothing is waiting yet: wait for the producer and look again.
    Empty,
    /// The slot was closed: no frame will ever come out of it again.
    Closed,
}

impl SlotView {
    /// A slot as it is created: empty and open.
    pub open spec fn fresh() -> SlotView {
        SlotView { current: None, closed: false }
    }

    /// The slot after the producer stored `frame`: whatever waited before is
    /// gone.
    pub open spec fn after_set(self, frame: FrameView) -> SlotView {
        SlotView { current: Some(frame), closed: self.closed }
    }

    /// The frame a consumer takes out now: none from a closed or empty slot.
    pub open spec fn taken(self) -> Option<FrameView> {
        if self.closed {
            None
        } else {
            self.current
        }
    }

    /// The slot after the consumer looked into it: an open slot is empty
    /// afterwards, a closed one is left as it is.
    pub open spec fn after_get(self) -> SlotView {
        if self.closed {
            self
        } else {
            SlotView { current: None, closed: false }
        }
    }

    /// The slot after it was closed.
    pub open spec fn after_close(self) -> SlotView {
        SlotView { current: self.current, closed: true }
    }
}

/// One-element mailbox between the producer of a stream and one subscriber.
/// The producer overwrites, the consumer takes.
pub struct FrameSlot {
    current: Option<Frame>,
    closed: bool,
}

impl View for FrameSlot {
    type V = SlotView;

    closed spec fn view(&self) -> SlotView {
        SlotView {
            current: match self.current {
                Some(f) => Some(f@),
                None => None,
            },
            closed: self.closed,
        }
    }
}

impl FrameSlot {
    /// An empty, open slot.
    pub fn new() -> (slot: Self)
        ensures
            slot@ == SlotView::fresh(),
    {
        FrameSlot { current: None, closed: false }
    }

    /// Stores `frame`, replacing a frame that was not consumed yet. Never
    /// refuses and never waits, whatever the slot held.
    pub fn set(&mut self, frame: Frame)
        ensures
            final(self)@ == old(self)@.after_set(frame@),
    {
        self.current = Some(frame);
    }

    /// Takes the waiting frame out of the slot. A closed slot yields
    /// `Closed` even if a frame was still waiting in it.
    pub fn get(&mut self) -> (poll: SlotPoll)
        ensures
            final(self)@ == old(self)@.after_get(),
            match poll {
                SlotPoll::Ready(frame) => old(self)@.taken() == Some(frame@),
                SlotPoll::Empty => !old(self)@.closed && old(self)@.current is None,
                SlotPoll::Closed => old(self)@.closed,
            },
    {
        if self.closed {
            return SlotPoll::Closed;
        }
        let mut waiting: Option<Frame> = None;
        std::mem::swap(&mut self.current, &mut waiting);
        match waiting {
            Some(frame) => SlotPoll::Ready(frame),
            None => SlotPoll::Empty,
        }
    }

    /// Closes the slot for good.
    pub fn close(&mut self)
        ensures
            final(self)@ == old(self)@.after_close(),
    {
        self.closed = true;
    }

    /// Whether the slot was closed.
    pub fn is_closed(&self) -> (closed: bool)
        ensures
            closed == self@.closed,
    {
        self.closed
    }
}

/// Drop-oldest: of two frames stored one after the other only the later one
/// is kept, and it is the one the consumer of an open slot takes next; after
/// that the slot is empty again.
pub proof fn slot_keeps_newest(slot: SlotView, older: FrameView, newer: FrameView)
    ensures
        slot.after_set(older).after_set(newer) == slot.after_set(newer),
        !slot.closed ==> slot.after_set(older).after_set(newer).taken() == Some(newer),
        !slot.closed ==> slot.after_set(newer).after_get() == SlotView::fresh(),
{
}

/// Closing is terminal: a closed slot stays closed under every operation and
/// never hands out a frame again.
pub proof fn slot_close_is_terminal(slot: SlotView, frame: FrameView)
    ensures
        slot.after_close().closed,
        slot.closed ==> slot.after_set(frame).closed && slot.after_get().closed
            && slot.after_close().closed,
        slot.closed ==> slot.taken() is None && slot.after_set(frame).taken() is None,
{
}

} // verus!
