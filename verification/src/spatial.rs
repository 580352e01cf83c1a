use vstd::prelude::*;

use crate::caps::spec_voice_caps;
use crate::router::{session_slot, VOICE_SLOTS};

verus! {

/// How the loudness of a positioned sound falls off with distance.
#[derive(Debug, Clone, Copy, PartialEq, Eq, Structural)]
pub enum Attenuation {
    /// Loudness falls with the square of the distance.
    InverseSquare,
}

/// The settings a positional-audio spatializer context is created with.
#[derive(Debug, Clone, Copy, PartialEq, Eq, Structural)]
pub struct SpatializerConfig {
    /// How many sound sources the context can place.
    pub max_num_sources: u32,
    /// Samples per second of the audio it processes.
    pub sample_rate: u32,
    /// Mono samples it takes per source in one processing call.
    pub buffer_length: u32,
}

/// How one sound source of a context is set up after the context is created: its
/// audible range, in meters, how loudness falls off within it, and the gain given
/// with the fall-off mode.
#[derive(Debug, Clone, Copy, PartialEq, Eq, Structural)]
pub struct SourceSetup {
    pub sound: i32,
    pub range_min: u32,
    pub range_max: u32,
    pub attenuation: Attenuation,
    pub gain: u32,
}

/// The spatializer for voice: 16 sources, 16 kHz, 160 samples (10 ms) per call.
pub open spec fn spec_voice_spatializer() -> SpatializerConfig {
    SpatializerConfig { max_num_sources: 16, sample_rate: 16000, buffer_length: 160 }
}

/// The setup of sound source `sound`: audible from 0 to 1000 meters, falling off
/// with the square of the distance, with gain 0.
pub open spec fn spec_source_setup(sound: i32) -> SourceSetup {
    SourceSetup { sound, range_min: 0, range_max: 1000, attenuation: Attenuation::InverseSquare, gain: 0 }
}

/// Returns `spec_voice_spatializer()`.
pub fn voice_spatializer() -> (c: SpatializerConfig)
    ensures
        c == spec_voice_spatializer(),
{
    SpatializerConfig { max_num_sources: 16, sample_rate: 16000, buffer_length: 160 }
}

impl SpatializerConfig {
    /// The setups of all sources of a context made with this configuration, for
    /// sources `0 .. max_num_sources` in order.
    pub fn source_setups(&self) -> (v: Vec<SourceSetup>)
        requires
            self.max_num_sources <= i32::MAX,
        ensures
            v.len() == self.max_num_sources,
            forall|i: int| 0 <= i < v.len() ==> #[trigger] v[i] == spec_source_setup(i as i32),
    {
        let mut v: Vec<SourceSetup> = Vec::new();
        let mut s: u32 = 0;
        while s < self.max_num_sources
            invariant
                s <= self.max_num_sources <= i32::MAX,
                v.len() == s,
                forall|i: int| 0 <= i < v.len() ==> #[trigger] v[i] == spec_source_setup(i as i32),
            decreases self.max_num_sources - s,
        {
            let sound = s as i32;
            v.push(SourceSetup { sound, range_min: 0, range_max: 1000, attenuation: Attenuation::InverseSquare, gain: 0 });
            s = s + 1;
        }
        v
    }

    /// Number of output values of one spatializing call: `buffer_length` frames of
    /// interleaved stereo, two values per frame.
    pub fn interleaved_len(&self) -> (n: u64)
        ensures
            n == 2 * self.buffer_length,
    {
        2 * (self.buffer_length as u64)
    }
}

/// The voice pipelines and the spatializer agree: there is one spatializer source
/// for each playback slot, every session that has
/// a slot has a source of the same number, the spatializer runs at the voice
/// sample rate, and one spatializing call covers 10 ms of voice.
pub proof fn lemma_voice_setup_agrees(session: i32)
    ensures
        spec_voice_spatializer().max_num_sources == VOICE_SLOTS,
        spec_voice_spatializer().sample_rate == spec_voice_caps().rate,
        session_slot(session) matches Some(slot) ==> slot < spec_voice_spatializer().max_num_sources
            && slot == session,
        spec_voice_spatializer().buffer_length * 100 == spec_voice_caps().rate,
{
}

} // verus!
