use vstd::prelude::*;

use crate::router::VOICE_SLOTS;

verus! {

/// The pipeline elements that the voice pipelines are made of.
#[derive(Debug, Clone, Copy, PartialEq, Eq, Structural)]
pub enum ElementKind {
    /// The system's default audio input.
    AutoAudioSrc,
    /// Converts between sample rates.
    AudioResample,
    /// Lets only the audio its caps describe pass.
    CapsFilter,
    /// Hands buffers to the application.
    AppSink,
    /// Takes buffers from the application.
    AppSrc,
    /// Converts between sample formats and channel layouts.
    AudioConvert,
    /// The system's default audio output.
    AutoAudioSink,
}

/// The factory name that an element kind is made by.
pub open spec fn factory_name_of(k: ElementKind) -> Seq<char> {
    match k {
        ElementKind::AutoAudioSrc => "autoaudiosrc"@,
        ElementKind::AudioResample => "audioresample"@,
        ElementKind::CapsFilter => "capsfilter"@,
        ElementKind::AppSink => "appsink"@,
        ElementKind::AppSrc => "appsrc"@,
        ElementKind::AudioConvert => "audioconvert"@,
        ElementKind::AutoAudioSink => "autoaudiosink"@,
    }
}

/// Element kinds that start a chain: they only produce data.
pub open spec fn is_source(k: ElementKind) -> bool {
    k == ElementKind::AutoAudioSrc || k == ElementKind::AppSrc
}

/// Element kinds that end a chain: they only consume data.
pub open spec fn is_sink(k: ElementKind) -> bool {
    k == ElementKind::AppSink || k == ElementKind::AutoAudioSink
}

/// Element kinds that are told the voice caps: the capture filter and the
/// elements where audio leaves or enters the application.
pub open spec fn takes_voice_caps(k: ElementKind) -> bool {
    k == ElementKind::CapsFilter || k == ElementKind::AppSink || k == ElementKind::AppSrc
}

impl ElementKind {
    /// Returns `factory_name_of(*self)`.
    pub fn factory_name(&self) -> (s: &'static str)
        ensures
            s@ == factory_name_of(*self),
    {
        match self {
            ElementKind::AutoAudioSrc => "autoaudiosrc",
            ElementKind::AudioResample => "audioresample",
            ElementKind::CapsFilter => "capsfilter",
            ElementKind::AppSink => "appsink",
            ElementKind::AppSrc => "appsrc",
            ElementKind::AudioConvert => "audioconvert",
            ElementKind::AutoAudioSink => "autoaudiosink",
        }
    }

    /// Returns `takes_voice_caps(*self)`.
    pub fn needs_voice_caps(&self) -> (b: bool)
        ensures
            b == takes_voice_caps(*self),
    {
        match self {
            ElementKind::CapsFilter | ElementKind::AppSink | ElementKind::AppSrc => true,
            _ => false,
        }
    }

    /// Whether the element handles state changes asynchronously: only the audio
    /// output of the playback chains does.
    pub fn async_handling(&self) -> (b: bool)
        ensures
            b == (*self == ElementKind::AutoAudioSink),
    {
        match self {
            ElementKind::AutoAudioSink => true,
            _ => false,
        }
    }
}

/// The error raised when an element kind cannot be made on this system.
#[derive(Debug, Clone, Copy, PartialEq, Eq, Structural)]
pub struct MissingElement(pub ElementKind);

/// A chain of elements, each linked to the next.
#[derive(Debug)]
pub struct Chain {
    pub elements: Vec<ElementKind>,
}

/// The capture chain: audio input, resampled, filtered to the voice caps, handed to the application.
pub open spec fn capture_elements() -> Seq<ElementKind> {
    seq![ElementKind::AutoAudioSrc, ElementKind::AudioResample, ElementKind::CapsFilter, ElementKind::AppSink]
}

/// A playback chain: audio from the application, converted, played on the audio output.
pub open spec fn playback_elements() -> Seq<ElementKind> {
    seq![ElementKind::AppSrc, ElementKind::AudioConvert, ElementKind::AutoAudioSink]
}

/// The links of a chain of `n` elements: element `i` to element `i + 1`.
pub open spec fn chain_links(n: nat) -> Seq<(usize, usize)> {
    Seq::new((if n == 0 { 0 } else { n - 1 }) as nat, |i: int| (i as usize, (i + 1) as usize))
}

/// Returns the capture chain.
pub fn capture_chain() -> (c: Chain)
    ensures
        c.elements@ == capture_elements(),
{
    let c = Chain {
        elements: vec![
            ElementKind::AutoAudioSrc,
            ElementKind::AudioResample,
            ElementKind::CapsFilter,
            ElementKind::AppSink,
        ],
    };
    assert(c.elements@ =~= capture_elements());
    c
}

/// Returns one playback chain.
pub fn playback_chain() -> (c: Chain)
    ensures
        c.elements@ == playback_elements(),
{
    let c = Chain { elements: vec![ElementKind::AppSrc, ElementKind::AudioConvert, ElementKind::AutoAudioSink] };
    assert(c.elements@ =~= playback_elements());
    c
}

/// Returns the playback chains, one per playback slot.
pub fn playback_chains() -> (cs: Vec<Chain>)
    ensures
        cs.len() == VOICE_SLOTS,
        forall|i: int| 0 <= i < cs.len() ==> (#[trigger] cs[i]).elements@ == playback_elements(),
{
    let mut cs: Vec<Chain> = Vec::new();
    let mut n: usize = 0;
    while n < VOICE_SLOTS
        invariant
            n <= VOICE_SLOTS,
            cs.len() == n,
            forall|i: int| 0 <= i < cs.len() ==> (#[trigger] cs[i]).elements@ == playback_elements(),
        decreases VOICE_SLOTS - n,
    {
        cs.push(playback_chain());
        n = n + 1;
    }
    cs
}

impl Chain {
    /// The links that join the chain's elements, by position: each element to the next.
    pub fn links(&self) -> (ls: Vec<(usize, usize)>)
        ensures
            ls@ == chain_links(self.elements@.len()),
    {
        let n = self.elements.len();
        let mut ls: Vec<(usize, usize)> = Vec::new();
        let mut i: usize = 0;
        while i + 1 < n
            invariant
                n == self.elements@.len(),
                i == ls.len(),
                n == 0 ==> i == 0,
                n > 0 ==> i <= n - 1,
                forall|j: int| 0 <= j < i ==> ls[j] == (j as usize, (j + 1) as usize),
            decreases n - i,
        {
            ls.push((i, i + 1));
            i = i + 1;
        }
        assert(ls@ =~= chain_links(n as nat));
        ls
    }
}

/// The links of a chain join each element to the one after it and nothing else:
/// a chain of `n > 0` elements has `n - 1` links, the `i`-th from element `i` to
/// element `i + 1`.
pub proof fn lemma_links_join_neighbours(n: nat)
    requires
        0 < n <= usize::MAX,
    ensures
        chain_links(n).len() == n - 1,
        forall|i: int| 0 <= i < n - 1 ==> (#[trigger] chain_links(n)[i]).0 == i && chain_links(n)[i].1 == i + 1,
{
}

/// Each chain is one path from a source to a sink: it starts at a source, ends
/// at a sink, and no element in between is either; its links join each element
/// to the next, so every element but the last feeds exactly one other.
pub proof fn lemma_chains_run_source_to_sink()
    ensures
        is_source(capture_elements()[0]),
        is_sink(capture_elements().last()),
        forall|i: int| 0 < i < capture_elements().len() - 1 ==> !is_source(#[trigger] capture_elements()[i])
            && !is_sink(capture_elements()[i]),
        is_source(playback_elements()[0]),
        is_sink(playback_elements().last()),
        forall|i: int| 0 < i < playback_elements().len() - 1 ==> !is_source(#[trigger] playback_elements()[i])
            && !is_sink(playback_elements()[i]),
        chain_links(capture_elements().len()).len() == capture_elements().len() - 1,
        chain_links(playback_elements().len()).len() == playback_elements().len() - 1,
{
    assert forall|i: int| 0 < i < capture_elements().len() - 1 implies !is_source(
        #[trigger] capture_elements()[i],
    ) && !is_sink(capture_elements()[i]) by {
        assert(i == 1 || i == 2);
    }
    assert forall|i: int| 0 < i < playback_elements().len() - 1 implies !is_source(
        #[trigger] playback_elements()[i],
    ) && !is_sink(playback_elements()[i]) by {
        assert(i == 1);
    }
}

/// The voice caps are told to exactly the capture filter and the two points where
/// audio crosses into or out of the application: the capture chain's last element
/// and a playback chain's first.
pub proof fn lemma_caps_at_application_edges()
    ensures
        takes_voice_caps(capture_elements()[2]),
        takes_voice_caps(capture_elements().last()),
        takes_voice_caps(playback_elements()[0]),
        !takes_voice_caps(capture_elements()[0]),
        !takes_voice_caps(capture_elements()[1]),
        !takes_voice_caps(playback_elements()[1]),
        !takes_voice_caps(playback_elements()[2]),
{
}

} // verus!
