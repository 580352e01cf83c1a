use vstd::prelude::*;

verus! {

/// Sample formats of raw audio, as far as the voice pipelines use them.
#[derive(Debug, Clone, Copy, PartialEq, Eq, Structural)]
pub enum SampleFormat {
    /// Signed 16-bit samples in the machine's byte order.
    S16,
}

/// How the channels of raw audio are laid out in a buffer.
#[derive(Debug, Clone, Copy, PartialEq, Eq, Structural)]
pub enum ChannelLayout {
    /// The samples of all channels for one instant follow each other.
    Interleaved,
}

/// A description of raw audio: the capabilities that two pipeline elements agree on.
#[derive(Debug, Clone, Copy, PartialEq, Eq, Structural)]
pub struct AudioCaps {
    pub format: SampleFormat,
    pub layout: ChannelLayout,
    pub channels: i32,
    pub rate: i32,
}

/// The audio that voice is captured and played back in: mono, interleaved,
/// signed 16-bit samples at 16 kHz.
pub open spec fn spec_voice_caps() -> AudioCaps {
    AudioCaps {
        format: SampleFormat::S16,
        layout: ChannelLayout::Interleaved,
        channels: 1,
        rate: 16000,
    }
}

/// Returns `spec_voice_caps()`.
pub fn voice_caps() -> (c: AudioCaps)
    ensures
        c == spec_voice_caps(),
{
    AudioCaps { format: SampleFormat::S16, layout: ChannelLayout::Interleaved, channels: 1, rate: 16000 }
}

impl AudioCaps {
    /// The media type of raw audio, "audio/x-raw".
    pub fn media_type(&self) -> (s: &'static str)
        ensures
            s@ == "audio/x-raw"@,
    {
        "audio/x-raw"
    }

    /// The name of the channel layout, as the caps field "layout" spells it.
    pub fn layout_name(&self) -> (s: &'static str)
        ensures
            self.layout == ChannelLayout::Interleaved ==> s@ == "interleaved"@,
    {
        match self.layout {
            ChannelLayout::Interleaved => "interleaved",
        }
    }
}

} // verus!
