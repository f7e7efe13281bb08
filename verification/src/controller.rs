//! From the analysis of a frame to the colour temperature to show, and the
//! cadence at which the display is adjusted.

use crate::analysis::{
    all_black, analysis_of, analyze_frame_for_nightlight, blue_intensity_milli, brightness_milli,
    byte_sum, lemma_black_frame, lemma_brightness_in_range, FrameAnalysis,
};
use crate::config::NightLightConfig;
use crate::control::SystemStatus;
use crate::frame::FrameData;
use crate::throttle::{elapsed_between, elapsed_ns};
use vstd::prelude::*;

verus! {

/// The warmest colour temperature that is ever chosen, in Kelvin.
pub const WARMEST_KELVIN: u32 = 3000;

/// The coldest colour temperature that is ever chosen, in Kelvin.
pub const COLDEST_KELVIN: u32 = 6500;

/// Nanoseconds between two adjustments of the display: two seconds.
pub const ADJUSTMENT_INTERVAL_NS: u64 = 2_000_000_000;

/// The colour temperature before it is held to its bounds, times 255 000.
///
/// With brightness `b` and blue `u` on the 0 to 255 scale and the ambient
/// estimate `a` between zero and one, the temperature is
/// `3000 + (1 - b/255) * 4500 - (u/255) * 1000 - a * 800`. Here `b` and `u`
/// come in thousandths and `a` in millionths, and everything is brought over
/// the one denominator 255 000.
pub open spec fn scaled_temperature(analysis: FrameAnalysis) -> int {
    1_912_500_000 - 4500 * analysis.brightness_milli - 1000 * analysis.blue_milli - 204
        * analysis.ambient_ppm
}

/// The colour temperature to show for an analysis, in Kelvin: the formula's
/// value, rounded down and held between 3000 K and 6500 K.
pub open spec fn target_temperature(analysis: FrameAnalysis) -> int {
    let kelvin = scaled_temperature(analysis) / 255_000;
    if kelvin < WARMEST_KELVIN {
        WARMEST_KELVIN as int
    } else if kelvin > COLDEST_KELVIN {
        COLDEST_KELVIN as int
    } else {
        kelvin
    }
}

/// Computes the colour temperature to show for an analysis. It depends on
/// the analysis alone and never leaves 3000 K to 6500 K.
pub fn calculate_optimal_night_light_temperature(analysis: &FrameAnalysis) -> (kelvin: u32)
    ensures
        kelvin == target_temperature(*analysis),
        WARMEST_KELVIN <= kelvin <= COLDEST_KELVIN,
{
    let lowered: u64 = 4500 * (analysis.brightness_milli as u64) + 1000 * (
    analysis.blue_milli as u64) + 204 * (analysis.ambient_ppm as u64);
    if lowered >= 1_147_500_000 {
        // 1 912 500 000 - 3000 * 255 000
        WARMEST_KELVIN
    } else if lowered <= 255_000_000 {
        // 1 912 500 000 - 6500 * 255 000
        COLDEST_KELVIN
    } else {
        ((1_912_500_000 - lowered) / 255_000) as u32
    }
}

/// The state of the loop that analyses frames and adjusts the display.
#[derive(Clone, Copy, Debug, PartialEq, Eq, Structural)]
pub struct FrameProcessor {
    /// Frames analysed so far.
    pub frames_processed: u64,
    /// The latest analysis that no adjustment has looked at yet.
    pub pending: Option<FrameAnalysis>,
    /// Clock reading at the last adjustment, in nanoseconds.
    pub last_adjustment: u64,
}

/// The temperature to apply at an adjustment, if any: the target for the
/// pending analysis, where the night light is on and shows another one.
pub open spec fn adjustment(pending: Option<FrameAnalysis>, config: NightLightConfig) -> Option<u32> {
    match pending {
        Some(analysis) => if config.spec_enabled() && target_temperature(analysis)
            != config.spec_temperature() {
            Some(target_temperature(analysis) as u32)
        } else {
            None
        },
        None => None,
    }
}

impl FrameProcessor {
    /// An adjustment is due at `now`: the interval has passed since the last.
    pub open spec fn due(self, now: u64) -> bool {
        elapsed_ns(self.last_adjustment, now) >= ADJUSTMENT_INTERVAL_NS
    }

    /// A processor that starts at the clock reading `now`.
    pub fn new(now: u64) -> (processor: FrameProcessor)
        ensures
            processor == (FrameProcessor { frames_processed: 0, pending: None, last_adjustment: now }),
    {
        FrameProcessor { frames_processed: 0, pending: None, last_adjustment: now }
    }

    /// Analyses a frame at the clock reading `now`, counts it, keeps the
    /// analysis for the next adjustment and reports it in `status` with the
    /// wall-clock time `now_ms`. The count stops at the largest number that
    /// it can hold.
    pub fn record_frame(
        &mut self,
        status: &mut SystemStatus,
        frame: &FrameData,
        now: u64,
        now_ms: u64,
    ) -> (analysis: FrameAnalysis)
        ensures
            analysis == analysis_of(*frame, now),
            analysis.in_range(),
            *final(self) == (FrameProcessor {
                frames_processed: if old(self).frames_processed == u64::MAX {
                    u64::MAX
                } else {
                    (old(self).frames_processed + 1) as u64
                },
                pending: Some(analysis),
                ..*old(self)
            }),
            *final(status) == (SystemStatus {
                frames_processed: final(self).frames_processed,
                current_analysis: Some(analysis),
                last_update: now_ms,
                ..*old(status)
            }),
    {
        let analysis: FrameAnalysis = analyze_frame_for_nightlight(frame, now);
        if self.frames_processed < u64::MAX {
            self.frames_processed = self.frames_processed + 1;
        }
        self.pending = Some(analysis);
        status.record_analysis(analysis, self.frames_processed, now_ms);
        analysis
    }

    /// Decides at the clock reading `now` whether to adjust the display.
    ///
    /// Before the interval has passed nothing happens. Once it has, the
    /// pending analysis is used up and the interval starts anew, whether or
    /// not a frame came in the meantime. The result is the temperature to
    /// apply, if there is one. The configuration is not touched: the caller
    /// records the temperature once the display has taken it on.
    pub fn tick(&mut self, config: &NightLightConfig, now: u64) -> (apply: Option<u32>)
        ensures
            !old(self).due(now) ==> apply.is_none() && *final(self) == *old(self),
            old(self).due(now) ==> apply == adjustment(old(self).pending, *config) && *final(self)
                == (FrameProcessor { pending: None, last_adjustment: now, ..*old(self) }),
            apply matches Some(kelvin) ==> WARMEST_KELVIN <= kelvin <= COLDEST_KELVIN,
    {
        if elapsed_between(self.last_adjustment, now) < ADJUSTMENT_INTERVAL_NS {
            return None;
        }
        let pending: Option<FrameAnalysis> = self.pending;
        self.pending = None;
        self.last_adjustment = now;
        match pending {
            Some(analysis) => {
                let target: u32 = calculate_optimal_night_light_temperature(&analysis);
                if config.enabled() && target != config.temperature() {
                    Some(target)
                } else {
                    None
                }
            },
            None => None,
        }
    }
}

/// A black frame asks for the coldest temperature.
///
/// For a frame that holds only zeros, of any size and layout, and also for
/// one that holds nothing, the target is 6500 K.
pub proof fn lemma_black_frame_is_coldest(frame: FrameData, now: u64)
    requires
        all_black(frame.data@),
    ensures
        target_temperature(analysis_of(frame, now)) == COLDEST_KELVIN,
{
    if frame.data@.len() > 0 {
        lemma_black_frame(frame.data@, frame.width, frame.height, frame.format);
    } else {
        lemma_brightness_in_range(frame.data@, frame.width, frame.height, frame.format);
        assert(byte_sum(frame.data@, 0) == 0);
        assert(brightness_milli(frame.data@, frame.width, frame.height, frame.format) == 0);
        assert(blue_intensity_milli(frame.data@, frame.width, frame.height, frame.format) == 0);
    }
}

/// The target never leaves 3000 K to 6500 K, whatever the analysis holds.
pub proof fn lemma_target_in_range(analysis: FrameAnalysis)
    ensures
        WARMEST_KELVIN <= target_temperature(analysis) <= COLDEST_KELVIN,
{
}

/// A brighter, bluer or better lit screen never asks for a colder
/// temperature.
pub proof fn lemma_target_is_monotonic(dim: FrameAnalysis, bright: FrameAnalysis)
    requires
        dim.brightness_milli <= bright.brightness_milli,
        dim.blue_milli <= bright.blue_milli,
        dim.ambient_ppm <= bright.ambient_ppm,
    ensures
        target_temperature(bright) <= target_temperature(dim),
{
}

} // verus!
