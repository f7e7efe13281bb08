//! Rate limit on the frames that are taken from the stream.

use vstd::prelude::*;

verus! {

/// Nanoseconds that must pass between two accepted frames unless another
/// interval is asked for: half a second.
pub const DEFAULT_FRAME_INTERVAL_NS: u64 = 500_000_000;

/// Nanoseconds from `earlier` to `later` on the monotonic clock; zero where
/// `later` lies before `earlier`.
pub open spec fn elapsed_ns(earlier: u64, later: u64) -> nat {
    if later <= earlier {
        0
    } else {
        (later - earlier) as nat
    }
}

/// Computes the nanoseconds from `earlier` to `later`.
pub fn elapsed_between(earlier: u64, later: u64) -> (ns: u64)
    ensures
        ns as nat == elapsed_ns(earlier, later),
{
    if later <= earlier {
        0
    } else {
        later - earlier
    }
}

/// Remembers when a frame was last accepted and refuses those that follow
/// too closely.
#[derive(Clone, Copy, Debug, PartialEq, Eq, Structural)]
pub struct FrameThrottle {
    /// Clock reading at the last accepted frame, if there was one.
    pub last_accepted: Option<u64>,
    /// Nanoseconds that must pass before the next frame is accepted.
    pub interval: u64,
}

impl FrameThrottle {
    /// A frame that arrives at `now` is accepted: none was accepted before,
    /// or the interval has passed since the last one.
    pub open spec fn accepts(self, now: u64) -> bool {
        match self.last_accepted {
            None => true,
            Some(last) => elapsed_ns(last, now) >= self.interval,
        }
    }

    /// The throttle after a frame arrived at `now`.
    pub open spec fn after(self, now: u64) -> FrameThrottle {
        if self.accepts(now) {
            FrameThrottle { last_accepted: Some(now), interval: self.interval }
        } else {
            self
        }
    }

    /// The verdicts on frames that arrive at `times`, one after another.
    pub open spec fn accept_all(self, times: Seq<u64>) -> Seq<bool>
        decreases times.len(),
    {
        if times.len() == 0 {
            Seq::empty()
        } else {
            seq![self.accepts(times[0])] + self.after(times[0]).accept_all(times.skip(1))
        }
    }

    /// A throttle that has accepted nothing yet.
    pub fn new(interval: u64) -> (throttle: FrameThrottle)
        ensures
            throttle == (FrameThrottle { last_accepted: None, interval }),
    {
        FrameThrottle { last_accepted: None, interval }
    }

    /// Decides on a frame that arrives at `now`, and remembers `now` if the
    /// frame is accepted.
    pub fn accept(&mut self, now: u64) -> (accepted: bool)
        ensures
            accepted == old(self).accepts(now),
            *final(self) == old(self).after(now),
    {
        let accepted: bool = match self.last_accepted {
            None => true,
            Some(last) => elapsed_between(last, now) >= self.interval,
        };
        if accepted {
            self.last_accepted = Some(now);
        }
        accepted
    }
}

/// Frames that all arrive within less than the interval of an accepted frame
/// are refused, however many they are.
proof fn lemma_refuses_within_interval(throttle: FrameThrottle, first: u64, times: Seq<u64>)
    requires
        throttle.interval > 0,
        throttle.last_accepted == Some(first),
        forall|i: int|
            0 <= i < times.len() ==> elapsed_ns(first, #[trigger] times[i]) < throttle.interval,
    ensures
        throttle.accept_all(times).len() == times.len(),
        forall|i: int| 0 <= i < times.len() ==> !(#[trigger] throttle.accept_all(times)[i]),
    decreases times.len(),
{
    if times.len() > 0 {
        let rest = times.skip(1);
        assert(!throttle.accepts(times[0]));
        assert(throttle.after(times[0]) == throttle);
        assert forall|i: int| 0 <= i < rest.len() implies elapsed_ns(first, #[trigger] rest[i])
            < throttle.interval by {
            assert(rest[i] == times[i + 1]);
        }
        lemma_refuses_within_interval(throttle, first, rest);
    }
}

/// Of a burst of frames, only the first is accepted.
///
/// Let the throttle accept the frame at `times[0]`, and let every later
/// frame of `times` arrive less than the interval after that first one.
/// Then the first frame is accepted and all others are refused, whatever
/// the length of the burst.
pub proof fn lemma_burst_accepts_only_first(throttle: FrameThrottle, times: Seq<u64>)
    requires
        throttle.interval > 0,
        times.len() > 0,
        throttle.accepts(times[0]),
        forall|i: int|
            1 <= i < times.len() ==> elapsed_ns(times[0], #[trigger] times[i]) < throttle.interval,
    ensures
        throttle.accept_all(times).len() == times.len(),
        throttle.accept_all(times)[0],
        forall|i: int| 1 <= i < times.len() ==> !(#[trigger] throttle.accept_all(times)[i]),
{
    let rest = times.skip(1);
    let next = throttle.after(times[0]);
    assert forall|i: int| 0 <= i < rest.len() implies elapsed_ns(times[0], #[trigger] rest[i])
        < next.interval by {
        assert(rest[i] == times[i + 1]);
    }
    lemma_refuses_within_interval(next, times[0], rest);
    assert forall|i: int| 1 <= i < times.len() implies !(#[trigger] throttle.accept_all(times)[i]) by {
        assert(throttle.accept_all(times)[i] == next.accept_all(rest)[i - 1]);
    }
}

} // verus!
