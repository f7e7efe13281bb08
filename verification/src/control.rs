//! Starting and stopping the monitoring, and what is reported of it.

use crate::analysis::FrameAnalysis;
use crate::config::NightLightConfig;
use vstd::prelude::*;

verus! {

/// Why a capture session could not be opened.
#[derive(Clone, Copy, Debug, PartialEq, Eq, Structural)]
pub enum SessionError {
    /// The user declined to share the screen.
    PermissionDenied,
    /// The platform offered nothing to capture.
    NoSourceAvailable,
    /// Talking to the platform service failed.
    TransportError,
}

/// How the platform answered the request to share the screen.
#[derive(Clone, Copy, Debug, PartialEq, Eq, Structural)]
pub enum PortalReply {
    /// The user agreed.
    Granted,
    /// The user declined.
    Declined,
    /// The request did not get through.
    Failed,
}

/// The source to capture from: the first that was offered, where the user
/// agreed and anything was offered.
pub open spec fn spec_select_source(reply: PortalReply, node_ids: Seq<u32>) -> Result<
    u32,
    SessionError,
> {
    match reply {
        PortalReply::Declined => Err(SessionError::PermissionDenied),
        PortalReply::Failed => Err(SessionError::TransportError),
        PortalReply::Granted => if node_ids.len() == 0 {
            Err(SessionError::NoSourceAvailable)
        } else {
            Ok(node_ids[0])
        },
    }
}

/// Picks the source to capture from among those that the platform offered.
pub fn select_source(reply: PortalReply, node_ids: &[u32]) -> (source: Result<u32, SessionError>)
    ensures
        source == spec_select_source(reply, node_ids@),
{
    match reply {
        PortalReply::Declined => Err(SessionError::PermissionDenied),
        PortalReply::Failed => Err(SessionError::TransportError),
        PortalReply::Granted => {
            if node_ids.len() == 0 {
                Err(SessionError::NoSourceAvailable)
            } else {
                Ok(node_ids[0])
            }
        },
    }
}

/// Why a request to start or stop is refused.
#[derive(Clone, Copy, Debug, PartialEq, Eq, Structural)]
pub enum ControlError {
    /// A capture session is open already.
    AlreadyRunning,
    /// No capture session is open.
    NotRunning,
}

/// What the system reports of itself.
#[derive(Clone, Copy, Debug, PartialEq, Eq, Structural)]
pub struct SystemStatus {
    /// A capture session is open.
    pub running: bool,
    /// Frames analysed so far.
    pub frames_processed: u64,
    /// The latest analysis, once there is one.
    pub current_analysis: Option<FrameAnalysis>,
    /// The configuration that the system started with.
    pub current_config: NightLightConfig,
    /// Wall-clock time of the last change, in milliseconds since the epoch.
    pub last_update: u64,
}

impl SystemStatus {
    /// The status of a system that has not started to monitor.
    pub fn new() -> (status: SystemStatus)
        ensures
            !status.running,
            status.frames_processed == 0,
            status.current_analysis.is_none(),
            status.current_config.spec_temperature() == crate::config::DEFAULT_TEMPERATURE,
            !status.current_config.spec_enabled(),
            status.last_update == 0,
    {
        SystemStatus {
            running: false,
            frames_processed: 0,
            current_analysis: None,
            current_config: NightLightConfig::default(),
            last_update: 0,
        }
    }

    /// Whether a capture session may be opened now: only one may be open at
    /// a time.
    pub fn check_start(&self) -> (verdict: Result<(), ControlError>)
        ensures
            verdict == if self.running {
                Err::<(), ControlError>(ControlError::AlreadyRunning)
            } else {
                Ok::<(), ControlError>(())
            },
    {
        if self.running {
            Err(ControlError::AlreadyRunning)
        } else {
            Ok(())
        }
    }

    /// Records, at the wall-clock time `now_ms`, that a capture session was
    /// opened. While one is open the request is refused and nothing changes.
    pub fn start_monitoring(&mut self, now_ms: u64) -> (outcome: Result<(), ControlError>)
        ensures
            old(self).running ==> outcome == Err::<(), ControlError>(ControlError::AlreadyRunning)
                && *final(self) == *old(self),
            !old(self).running ==> outcome == Ok::<(), ControlError>(()) && *final(self) == (
            SystemStatus { running: true, last_update: now_ms, ..*old(self) }),
    {
        if self.running {
            return Err(ControlError::AlreadyRunning);
        }
        self.running = true;
        self.last_update = now_ms;
        Ok(())
    }

    /// Records that the capture session was closed. While none is open the
    /// request is refused and nothing changes.
    pub fn stop_monitoring(&mut self) -> (outcome: Result<(), ControlError>)
        ensures
            !old(self).running ==> outcome == Err::<(), ControlError>(ControlError::NotRunning)
                && *final(self) == *old(self),
            old(self).running ==> outcome == Ok::<(), ControlError>(()) && *final(self) == (
            SystemStatus { running: false, ..*old(self) }),
    {
        if !self.running {
            return Err(ControlError::NotRunning);
        }
        self.running = false;
        Ok(())
    }

    /// Records the analysis of one more frame at the wall-clock time
    /// `now_ms`.
    pub fn record_analysis(&mut self, analysis: FrameAnalysis, frames_processed: u64, now_ms: u64)
        ensures
            *final(self) == (SystemStatus {
                frames_processed,
                current_analysis: Some(analysis),
                last_update: now_ms,
                ..*old(self)
            }),
    {
        self.frames_processed = frames_processed;
        self.current_analysis = Some(analysis);
        self.last_update = now_ms;
    }
}

} // verus!
