//! The queue that carries frames from the capture thread to the processing
//! side.
//!
//! The queue is tokio's unbounded channel. Sending never waits, so the
//! capture thread is never held up; receiving never waits either and hands
//! out at most one frame per call, the oldest first.

use crate::analysis::{analysis_of, FrameAnalysis};
use crate::control::SystemStatus;
use crate::controller::FrameProcessor;
use crate::frame::FrameData;
use crate::stream::{BufferOutcome, StreamPhase, StreamState};
use tokio::sync::mpsc::{UnboundedReceiver, UnboundedSender};
use vstd::prelude::*;

verus! {

/// The sending half of tokio's unbounded channel, carried through as it is.
#[verifier::external_type_specification]
#[verifier::external_body]
#[verifier::reject_recursive_types(T)]
pub struct ExUnboundedSender<T>(UnboundedSender<T>);

/// The receiving half of tokio's unbounded channel, carried through as it is.
#[verifier::external_type_specification]
#[verifier::external_body]
#[verifier::reject_recursive_types(T)]
pub struct ExUnboundedReceiver<T>(UnboundedReceiver<T>);

/// Calls `UnboundedSender::send`, which queues the frame without waiting and
/// fails only where the receiving half is closed or gone. The result says
/// whether the frame was queued; which of the two happens lies with the
/// other side, so nothing is claimed of it.
#[verifier::external_body]
fn send_frame(sender: &UnboundedSender<FrameData>, frame: FrameData) -> (queued: bool) {
    sender.send(frame).is_ok()
}

/// Calls `UnboundedReceiver::try_recv`, which hands out the oldest queued
/// frame, or none where the queue is empty or every sender is gone. What
/// is queued lies with the sending side, so nothing is claimed of the
/// result.
#[verifier::external_body]
fn try_receive_frame(receiver: &mut UnboundedReceiver<FrameData>) -> (frame: Option<FrameData>) {
    receiver.try_recv().ok()
}

/// What became of one buffer that was offered to the queue.
#[derive(Clone, Copy, Debug, PartialEq, Eq, Structural)]
pub enum Delivery {
    /// A frame was taken from the buffer and queued.
    Queued,
    /// A frame was taken, but the receiving side is gone.
    ReceiverGone,
    /// Dropped: no format is settled.
    NotStreaming,
    /// Dropped: it came too soon after the last accepted buffer.
    Throttled,
    /// Accepted, but it held no data plane or an empty chunk.
    Empty,
}

/// Takes a buffer as `StreamState::on_buffer` does and queues the frame that
/// it yields.
///
/// The stream changes exactly as `on_buffer` changes it. Where the buffer
/// yields no frame, the result says why. Where it yields one, the frame is
/// sent, and the result says whether the receiving side was still there.
pub fn deliver_buffer(
    state: &mut StreamState,
    sender: &UnboundedSender<FrameData>,
    now: u64,
    plane: Option<&[u8]>,
    chunk_size: u32,
) -> (delivery: Delivery)
    ensures
        final(state).spec_phase() == old(state).spec_phase(),
        final(state).spec_format() == old(state).spec_format(),
        old(state).spec_phase() != StreamPhase::Streaming ==> delivery == Delivery::NotStreaming
            && final(state).spec_throttle() == old(state).spec_throttle(),
        old(state).spec_phase() == StreamPhase::Streaming ==> final(state).spec_throttle() == old(
            state,
        ).spec_throttle().after(now),
        old(state).spec_phase() == StreamPhase::Streaming && !old(state).spec_throttle().accepts(
            now,
        ) ==> delivery == Delivery::Throttled,
        old(state).spec_phase() == StreamPhase::Streaming && old(state).spec_throttle().accepts(
            now,
        ) && (plane.is_none() || chunk_size == 0) ==> delivery == Delivery::Empty,
        old(state).spec_phase() == StreamPhase::Streaming && old(state).spec_throttle().accepts(
            now,
        ) && plane.is_some() && chunk_size > 0 ==> delivery == Delivery::Queued || delivery
            == Delivery::ReceiverGone,
{
    match state.on_buffer(now, plane, chunk_size) {
        BufferOutcome::Frame(frame) => {
            if send_frame(sender, frame) {
                Delivery::Queued
            } else {
                Delivery::ReceiverGone
            }
        },
        BufferOutcome::NotStreaming => Delivery::NotStreaming,
        BufferOutcome::Throttled => Delivery::Throttled,
        BufferOutcome::Empty => Delivery::Empty,
    }
}

/// Takes at most one frame from the queue and, if there was one, analyses
/// and records it as `FrameProcessor::record_frame` does.
///
/// Without a frame nothing changes. With one, the result is the analysis of
/// that frame at the clock reading `now`. Frames that queued up in the
/// meantime stay queued for the calls that follow.
pub fn poll_frame(
    processor: &mut FrameProcessor,
    status: &mut SystemStatus,
    receiver: &mut UnboundedReceiver<FrameData>,
    now: u64,
    now_ms: u64,
) -> (analysis: Option<FrameAnalysis>)
    ensures
        analysis.is_none() ==> *final(processor) == *old(processor) && *final(status) == *old(
            status,
        ),
        analysis matches Some(found) ==> exists|frame: FrameData|
            found == #[trigger] analysis_of(frame, now),
        analysis matches Some(found) ==> found.in_range() && *final(processor) == (FrameProcessor {
            frames_processed: if old(processor).frames_processed == u64::MAX {
                u64::MAX
            } else {
                (old(processor).frames_processed + 1) as u64
            },
            pending: Some(found),
            ..*old(processor)
        }) && *final(status) == (SystemStatus {
            frames_processed: final(processor).frames_processed,
            current_analysis: Some(found),
            last_update: now_ms,
            ..*old(status)
        }),
{
    match try_receive_frame(receiver) {
        Some(frame) => {
            let found: FrameAnalysis = processor.record_frame(status, &frame, now, now_ms);
            assert(found == analysis_of(frame, now));
            Some(found)
        },
        None => None,
    }
}

} // verus!
