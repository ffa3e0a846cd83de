//! Settings of the OBS audio context.
use vstd::prelude::*;

use crate::enums::{ObsSamplesPerSecond, ObsSpeakerLayout};

verus! {

/// Information passed to libobs when attempting to reset the audio context
/// using `obs_reset_audio2`.
#[derive(Clone, Debug, PartialEq, Eq, Structural)]
pub struct ObsAudioInfo {
    samples_per_sec: ObsSamplesPerSecond,
    speakers: ObsSpeakerLayout,
    max_buffering_ms: u32,
    fixed_buffering: bool,
}

impl ObsAudioInfo {
    /// The sample rate.
    pub closed spec fn spec_samples_per_sec(&self) -> ObsSamplesPerSecond {
        self.samples_per_sec
    }

    /// The speaker layout.
    pub closed spec fn spec_speakers(&self) -> ObsSpeakerLayout {
        self.speakers
    }

    /// The most audio that libobs buffers, in milliseconds.
    pub closed spec fn spec_max_buffering_ms(&self) -> u32 {
        self.max_buffering_ms
    }

    /// Whether libobs keeps its buffering fixed.
    pub closed spec fn spec_fixed_buffering(&self) -> bool {
        self.fixed_buffering
    }

    pub fn new(
        samples_per_second: ObsSamplesPerSecond,
        speakers: ObsSpeakerLayout,
        max_buffering_ms: u32,
        fixed_buffering: bool,
    ) -> (r: Self)
        ensures
            r.spec_samples_per_sec() == samples_per_second,
            r.spec_speakers() == speakers,
            r.spec_max_buffering_ms() == max_buffering_ms,
            r.spec_fixed_buffering() == fixed_buffering,
    {
        ObsAudioInfo {
            samples_per_sec: samples_per_second,
            speakers,
            max_buffering_ms,
            fixed_buffering,
        }
    }

    /// Settings for low latency: 20 ms of fixed buffering.
    pub fn new_low_latency(samples_per_second: ObsSamplesPerSecond, speakers: ObsSpeakerLayout) -> (r:
        Self)
        ensures
            r.spec_samples_per_sec() == samples_per_second,
            r.spec_speakers() == speakers,
            r.spec_max_buffering_ms() == 20,
            r.spec_fixed_buffering(),
    {
        Self::new(samples_per_second, speakers, 20, true)
    }

    pub fn samples_per_sec(&self) -> (r: ObsSamplesPerSecond)
        ensures
            r == self.spec_samples_per_sec(),
    {
        self.samples_per_sec
    }

    pub fn speakers(&self) -> (r: ObsSpeakerLayout)
        ensures
            r == self.spec_speakers(),
    {
        self.speakers
    }

    pub fn max_buffering_ms(&self) -> (r: u32)
        ensures
            r == self.spec_max_buffering_ms(),
    {
        self.max_buffering_ms
    }

    pub fn fixed_buffering(&self) -> (r: bool)
        ensures
            r == self.spec_fixed_buffering(),
    {
        self.fixed_buffering
    }
}

impl Default for ObsAudioInfo {
    /// 44.1 kHz stereo, without fixed buffering.
    fn default() -> (r: Self)
        ensures
            r.spec_samples_per_sec() == ObsSamplesPerSecond::F44100,
            r.spec_speakers() == ObsSpeakerLayout::Stereo,
            r.spec_max_buffering_ms() == 0,
            !r.spec_fixed_buffering(),
    {
        ObsAudioInfo {
            samples_per_sec: ObsSamplesPerSecond::F44100,
            speakers: ObsSpeakerLayout::Stereo,
            max_buffering_ms: 0,
            fixed_buffering: false,
        }
    }
}

} // verus!
