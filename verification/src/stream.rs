//! The life of a capture stream: from connecting, over the format that it
//! settles on, to the frames that are taken from its buffers.

use crate::format::NegotiatedFormat;
use crate::frame::{copy_len, FrameData};
use crate::throttle::{FrameThrottle, DEFAULT_FRAME_INTERVAL_NS};
use vstd::prelude::*;

verus! {

/// Where a stream stands.
#[derive(Clone, Copy, Debug, PartialEq, Eq, Structural)]
pub enum StreamPhase {
    /// The connection to the media server is being made.
    Connecting,
    /// Connected; the format is not settled yet.
    AwaitingFormat,
    /// The format is settled and buffers are taken.
    Streaming,
    /// The stream failed. Whoever started it decides whether to start anew.
    Error,
    /// The stream was stopped, or the connection dropped.
    Closed,
}

/// The kind of media that a parameter update describes.
#[derive(Clone, Copy, Debug, PartialEq, Eq, Structural)]
pub enum MediaType {
    /// Video.
    Video,
    /// Anything else.
    Other,
}

/// The encoding of the media that a parameter update describes.
#[derive(Clone, Copy, Debug, PartialEq, Eq, Structural)]
pub enum MediaSubtype {
    /// Raw, uncompressed samples.
    Raw,
    /// Anything else.
    Other,
}

/// Media type and subtype of a parameter update.
#[derive(Clone, Copy, Debug, PartialEq, Eq, Structural)]
pub struct MediaKind {
    /// The kind of media.
    pub media_type: MediaType,
    /// Its encoding.
    pub media_subtype: MediaSubtype,
}

/// What was read from one parameter update of the stream.
#[derive(Clone, Copy, Debug, PartialEq, Eq, Structural)]
pub struct ParamUpdate {
    /// The update carries a value.
    pub present: bool,
    /// The update is about the stream's format.
    pub is_format: bool,
    /// Media type and subtype, where they could be read.
    pub media: Option<MediaKind>,
    /// The raw video format, where it could be read.
    pub video: Option<NegotiatedFormat>,
}

impl ParamUpdate {
    /// The format that the update settles, if it settles one: the update
    /// carries a format value for raw video whose description could be read.
    pub open spec fn settles(self) -> Option<NegotiatedFormat> {
        if self.present && self.is_format && self.media == Some(
            MediaKind { media_type: MediaType::Video, media_subtype: MediaSubtype::Raw },
        ) {
            self.video
        } else {
            None
        }
    }
}

/// What became of one buffer.
#[derive(Debug)]
pub enum BufferOutcome {
    /// The buffer was taken; here is its frame.
    Frame(FrameData),
    /// Dropped: no format is settled, so the bytes cannot be read.
    NotStreaming,
    /// Dropped: it came too soon after the last accepted buffer.
    Throttled,
    /// Accepted, but it held no data plane or an empty chunk.
    Empty,
}

/// A stream's phase, its format once settled, and its throttle.
#[derive(Debug)]
pub struct StreamState {
    phase: StreamPhase,
    format: Option<NegotiatedFormat>,
    throttle: FrameThrottle,
}

impl StreamState {
    /// A format is known exactly from the moment the stream starts to deliver.
    #[verifier::type_invariant]
    spec fn inv(&self) -> bool {
        &&& self.phase == StreamPhase::Streaming ==> self.format.is_some()
        &&& (self.phase == StreamPhase::Connecting || self.phase == StreamPhase::AwaitingFormat)
            ==> self.format.is_none()
    }

    /// The phase of the stream.
    pub closed spec fn spec_phase(&self) -> StreamPhase {
        self.phase
    }

    /// The format that the stream has settled on, if it has.
    pub closed spec fn spec_format(&self) -> Option<NegotiatedFormat> {
        self.format
    }

    /// The throttle on the stream's buffers.
    pub closed spec fn spec_throttle(&self) -> FrameThrottle {
        self.throttle
    }

    /// The stream has ended, by failure or by closing.
    pub open spec fn ended(&self) -> bool {
        self.spec_phase() == StreamPhase::Error || self.spec_phase() == StreamPhase::Closed
    }

    /// A stream that is connecting, with a throttle of the given interval in
    /// nanoseconds.
    pub fn new(frame_interval: u64) -> (state: StreamState)
        ensures
            state.spec_phase() == StreamPhase::Connecting,
            state.spec_format().is_none(),
            state.spec_throttle() == (FrameThrottle { last_accepted: None, interval: frame_interval }),
    {
        StreamState {
            phase: StreamPhase::Connecting,
            format: None,
            throttle: FrameThrottle::new(frame_interval),
        }
    }

    /// A stream that is connecting, with the usual throttle of half a second.
    pub fn with_default_interval() -> (state: StreamState)
        ensures
            state.spec_phase() == StreamPhase::Connecting,
            state.spec_format().is_none(),
            state.spec_throttle() == (FrameThrottle {
                last_accepted: None,
                interval: DEFAULT_FRAME_INTERVAL_NS,
            }),
    {
        StreamState::new(DEFAULT_FRAME_INTERVAL_NS)
    }

    /// The phase of the stream.
    pub fn phase(&self) -> (phase: StreamPhase)
        ensures
            phase == self.spec_phase(),
    {
        self.phase
    }

    /// The format that the stream has settled on, if it has.
    pub fn format(&self) -> (format: Option<NegotiatedFormat>)
        ensures
            format == self.spec_format(),
            self.spec_phase() == StreamPhase::Streaming ==> format.is_some(),
    {
        proof {
            use_type_invariant(self);
        }
        self.format
    }

    /// The throttle on the stream's buffers.
    pub fn throttle(&self) -> (throttle: FrameThrottle)
        ensures
            throttle == self.spec_throttle(),
    {
        self.throttle
    }

    /// The connection is made: a connecting stream now waits for its format.
    /// In any other phase nothing changes.
    pub fn on_connected(&mut self)
        ensures
            final(self).spec_phase() == if old(self).spec_phase() == StreamPhase::Connecting {
                StreamPhase::AwaitingFormat
            } else {
                old(self).spec_phase()
            },
            final(self).spec_format() == old(self).spec_format(),
            final(self).spec_throttle() == old(self).spec_throttle(),
    {
        proof {
            use_type_invariant(&*self);
        }
        if self.phase == StreamPhase::Connecting {
            self.phase = StreamPhase::AwaitingFormat;
        }
    }

    /// A parameter update came. While the stream waits for its format, an
    /// update that settles one starts the delivery and fixes the format for
    /// the rest of the stream. Any other update is passed over, and so is
    /// every update in another phase.
    pub fn on_param_changed(&mut self, update: &ParamUpdate) -> (settled: bool)
        ensures
            settled == (old(self).spec_phase() == StreamPhase::AwaitingFormat
                && update.settles().is_some()),
            settled ==> final(self).spec_phase() == StreamPhase::Streaming
                && final(self).spec_format() == update.settles(),
            !settled ==> final(self).spec_phase() == old(self).spec_phase()
                && final(self).spec_format() == old(self).spec_format(),
            final(self).spec_throttle() == old(self).spec_throttle(),
    {
        proof {
            use_type_invariant(&*self);
        }
        if self.phase != StreamPhase::AwaitingFormat {
            return false;
        }
        if !update.present || !update.is_format {
            return false;
        }
        match update.media {
            Some(MediaKind { media_type: MediaType::Video, media_subtype: MediaSubtype::Raw }) => {},
            _ => {
                return false;
            },
        }
        match update.video {
            Some(video) => {
                *self = StreamState {
                    phase: StreamPhase::Streaming,
                    format: Some(video),
                    throttle: self.throttle,
                };
                true
            },
            None => false,
        }
    }

    /// The stream reported an error: it has failed, unless it had ended
    /// before.
    pub fn on_error(&mut self)
        ensures
            final(self).spec_phase() == if old(self).ended() {
                old(self).spec_phase()
            } else {
                StreamPhase::Error
            },
            final(self).spec_format() == old(self).spec_format(),
            final(self).spec_throttle() == old(self).spec_throttle(),
    {
        proof {
            use_type_invariant(&*self);
        }
        match self.phase {
            StreamPhase::Error | StreamPhase::Closed => {},
            _ => {
                self.phase = StreamPhase::Error;
            },
        }
    }

    /// The stream was stopped or the connection dropped: it is closed,
    /// unless it had ended before.
    pub fn on_closed(&mut self)
        ensures
            final(self).spec_phase() == if old(self).ended() {
                old(self).spec_phase()
            } else {
                StreamPhase::Closed
            },
            final(self).spec_format() == old(self).spec_format(),
            final(self).spec_throttle() == old(self).spec_throttle(),
    {
        proof {
            use_type_invariant(&*self);
        }
        match self.phase {
            StreamPhase::Error | StreamPhase::Closed => {},
            _ => {
                self.phase = StreamPhase::Closed;
            },
        }
    }

    /// A buffer came at the clock reading `now`, with its first data plane, if
    /// it has one, and the size of that plane's chunk.
    ///
    /// Before a format is settled, and after the stream has ended, the buffer
    /// is dropped. Otherwise the throttle decides. An accepted buffer
    /// without a plane, or with an empty chunk, yields nothing. Any other
    /// accepted buffer yields a frame with a copy of the plane's leading
    /// bytes, at most a full frame of them.
    pub fn on_buffer(&mut self, now: u64, plane: Option<&[u8]>, chunk_size: u32) -> (outcome:
        BufferOutcome)
        ensures
            final(self).spec_phase() == old(self).spec_phase(),
            final(self).spec_format() == old(self).spec_format(),
            old(self).spec_phase() != StreamPhase::Streaming ==> outcome is NotStreaming
                && final(self).spec_throttle() == old(self).spec_throttle(),
            old(self).spec_phase() == StreamPhase::Streaming ==> final(self).spec_throttle() == old(
                self,
            ).spec_throttle().after(now),
            old(self).spec_phase() == StreamPhase::Streaming && !old(self).spec_throttle().accepts(
                now,
            ) ==> outcome is Throttled,
            old(self).spec_phase() == StreamPhase::Streaming && old(self).spec_throttle().accepts(
                now,
            ) && (plane.is_none() || chunk_size == 0) ==> outcome is Empty,
            old(self).spec_phase() == StreamPhase::Streaming && old(self).spec_throttle().accepts(
                now,
            ) && plane.is_some() && chunk_size > 0 ==> outcome is Frame && takes(
                outcome->Frame_0,
                old(self).spec_format().unwrap(),
                plane.unwrap()@,
                now,
            ),
    {
        proof {
            use_type_invariant(&*self);
        }
        if self.phase != StreamPhase::Streaming {
            return BufferOutcome::NotStreaming;
        }
        let format: NegotiatedFormat = match self.format {
            Some(format) => format,
            None => {
                return BufferOutcome::NotStreaming;
            },
        };
        let mut throttle: FrameThrottle = self.throttle;
        let accepted: bool = throttle.accept(now);
        self.throttle = throttle;
        if !accepted {
            return BufferOutcome::Throttled;
        }
        if chunk_size == 0 {
            return BufferOutcome::Empty;
        }
        match plane {
            Some(bytes) => BufferOutcome::Frame(
                FrameData::copy_from_plane(bytes, format.width, format.height, format.format, now),
            ),
            None => BufferOutcome::Empty,
        }
    }
}

/// `frame` is what a buffer with the plane `plane`, taken at `now` from a
/// stream of format `format`, yields.
pub open spec fn takes(frame: FrameData, format: NegotiatedFormat, plane: Seq<u8>, now: u64) -> bool {
    &&& frame.data@ == plane.take(
        copy_len(plane.len(), format.width, format.height, format.format) as int,
    )
    &&& frame.width == format.width
    &&& frame.height == format.height
    &&& frame.format == format.format
    &&& frame.timestamp == now
    &&& frame.is_clamped()
}

} // verus!
