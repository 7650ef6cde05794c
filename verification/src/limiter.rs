//! The frame rate cap of a connection.
//!
//! A connection limited to `max_fps` frames per second sends a frame only if
//! at least `1 / max_fps` seconds have passed since the last frame it sent.
//! The comparison is exact: with times in nanoseconds, a frame comes too
//! soon when the time that passed, multiplied by `max_fps`, is less than one
//! second. A cap of zero means no limit: nothing is ever too soon. Servers
//! refuse a selection of zero frames per second before it gets here, so no
//! connection runs without a limit.

use vstd::prelude::*;

verus! {

/// Nanoseconds in one second. Times handed to the limiter are counted in
/// nanoseconds from any fixed moment.
pub const NANOS_PER_SECOND: u64 = 1_000_000_000;

/// Time that passed from `last` to `now`; none if the clock went backwards.
pub open spec fn elapsed_nanos(last: u64, now: u64) -> nat {
    if now >= last {
        (now - last) as nat
    } else {
        0
    }
}

/// Whether a frame that is ready at `now` has to be dropped: there is a
/// limit, a frame was sent before, and less than `1 / max_fps` seconds have
/// passed since. A `max_fps` of zero is no limit.
pub open spec fn too_soon(max_fps: u8, last_send: Option<u64>, now: u64) -> bool {
    match last_send {
        Some(last) => max_fps > 0 && elapsed_nanos(last, now) * max_fps < NANOS_PER_SECOND,
        None => false,
    }
}

/// The times at which frames are sent when frames become ready at `times`,
/// in that order, on a connection limited to `max_fps`.
pub open spec fn sent_times(max_fps: u8, times: Seq<u64>) -> Seq<u64>
    decreases times.len(),
{
    if times.len() == 0 {
        Seq::empty()
    } else {
        let earlier = sent_times(max_fps, times.drop_last());
        let last_send = if earlier.len() == 0 {
            None
        } else {
            Some(earlier.last())
        };
        if too_soon(max_fps, last_send, times.last()) {
            earlier
        } else {
            earlier.push(times.last())
        }
    }
}

/// Whatever the times at which frames become ready, two frames sent one
/// after the other under a limit are at least `1 / max_fps` seconds apart.
pub proof fn sent_frames_keep_distance(max_fps: u8, times: Seq<u64>, k: int)
    requires
        max_fps >= 1,
        0 < k < sent_times(max_fps, times).len(),
    ensures
        sent_times(max_fps, times)[k - 1] <= sent_times(max_fps, times)[k],
        (sent_times(max_fps, times)[k] - sent_times(max_fps, times)[k - 1]) * max_fps
            >= NANOS_PER_SECOND,
    decreases times.len(),
{
    let earlier = sent_times(max_fps, times.drop_last());
    if k < earlier.len() {
        sent_frames_keep_distance(max_fps, times.drop_last(), k);
    } else {
        let last = earlier.last();
        let now = times.last();
        if now < last {
            assert(elapsed_nanos(last, now) * max_fps == 0) by (nonlinear_arith)
                requires
                    elapsed_nanos(last, now) == 0,
            ;
        }
    }
}

/// The first frame that becomes ready is always sent.
pub proof fn first_frame_is_sent(max_fps: u8, times: Seq<u64>)
    requires
        times.len() > 0,
    ensures
        sent_times(max_fps, times).len() > 0,
        sent_times(max_fps, times)[0] == times[0],
    decreases times.len(),
{
    if times.len() == 1 {
        assert(sent_times(max_fps, times.drop_last()).len() == 0);
    } else {
        first_frame_is_sent(max_fps, times.drop_last());
    }
}

/// No frame is lost to the limiter when the producer is slow enough: if
/// each frame becomes ready at least `1 / max_fps` seconds after the one
/// before, every one of them is sent.
pub proof fn spaced_frames_are_all_sent(max_fps: u8, times: Seq<u64>)
    requires
        forall|k: int|
            0 < k < times.len() ==> times[k - 1] <= #[trigger] times[k] && (times[k] - times[k
                - 1]) * max_fps >= NANOS_PER_SECOND,
    ensures
        sent_times(max_fps, times) == times,
    decreases times.len(),
{
    if times.len() > 0 {
        let earlier = times.drop_last();
        assert forall|k: int| 0 < k < earlier.len() implies earlier[k - 1] <= #[trigger] earlier[k]
            && (earlier[k] - earlier[k - 1]) * max_fps >= NANOS_PER_SECOND by {
            assert(earlier[k] == times[k] && earlier[k - 1] == times[k - 1]);
        }
        spaced_frames_are_all_sent(max_fps, earlier);
        assert(sent_times(max_fps, times) =~= times);
    } else {
        assert(sent_times(max_fps, times) =~= times);
    }
}

/// Without a limit every frame is sent.
pub proof fn no_limit_sends_everything(times: Seq<u64>)
    ensures
        sent_times(0, times) == times,
    decreases times.len(),
{
    if times.len() > 0 {
        no_limit_sends_everything(times.drop_last());
    }
    assert(sent_times(0, times) =~= times);
}

/// Frame rate cap of one connection: it remembers when the last frame was
/// sent and decides whether the next one may go out.
#[derive(Clone, Copy, Debug, PartialEq, Eq)]
pub struct RateLimiter {
    /// Most frames per second to let through; zero for no limit.
    pub max_fps: u8,
    /// When the last frame was let through, if any was.
    pub last_send: Option<u64>,
}

impl RateLimiter {
    /// A limiter that has not let anything through yet. With a `max_fps`
    /// of zero it never holds anything back.
    pub fn new(max_fps: u8) -> (limiter: Self)
        ensures
            limiter == (RateLimiter { max_fps, last_send: None }),
    {
        RateLimiter { max_fps, last_send: None }
    }

    /// Decides on a frame that is ready at `now`. It may go out unless it
    /// comes too soon after the last one that did; a frame that goes out
    /// becomes the last one, a dropped frame leaves no trace.
    pub fn allow(&mut self, now: u64) -> (allowed: bool)
        ensures
            allowed == !too_soon(old(self).max_fps, old(self).last_send, now),
            final(self).max_fps == old(self).max_fps,
            final(self).last_send == if allowed {
                Some(now)
            } else {
                old(self).last_send
            },
    {
        if self.max_fps == 0 {
            self.last_send = Some(now);
            return true;
        }
        match self.last_send {
            Some(last) => {
                let elapsed: u64 = if now >= last {
                    now - last
                } else {
                    0
                };
                assert(elapsed * self.max_fps <= 0xffff_ffff_ffff_ffff * 0xff) by (nonlinear_arith)
                    requires
                        0 <= elapsed <= 0xffff_ffff_ffff_ffff,
                        0 <= self.max_fps <= 0xff,
                ;
                let scaled: u128 = (elapsed as u128) * (self.max_fps as u128);
                if scaled < NANOS_PER_SECOND as u128 {
                    return false;
                }
            },
            None => {},
        }
        self.last_send = Some(now);
        true
    }
}

} // verus!
