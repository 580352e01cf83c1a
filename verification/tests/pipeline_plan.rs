use mumblebot::{capture_chain, playback_chain, playback_chains, voice_caps, ChannelLayout, ElementKind, SampleFormat};

#[test]
fn capture_chain_elements() {
    let c = capture_chain();
    assert_eq!(
        c.elements,
        vec![ElementKind::AutoAudioSrc, ElementKind::AudioResample, ElementKind::CapsFilter, ElementKind::AppSink]
    );
    let names: Vec<&str> = c.elements.iter().map(|k| k.factory_name()).collect();
    assert_eq!(names, vec!["autoaudiosrc", "audioresample", "capsfilter", "appsink"]);
    assert_eq!(c.links(), vec![(0, 1), (1, 2), (2, 3)]);
}

#[test]
fn playback_chain_elements() {
    let c = playback_chain();
    let names: Vec<&str> = c.elements.iter().map(|k| k.factory_name()).collect();
    assert_eq!(names, vec!["appsrc", "audioconvert", "autoaudiosink"]);
    assert_eq!(c.links(), vec![(0, 1), (1, 2)]);
}

#[test]
fn one_playback_chain_per_slot() {
    let cs = playback_chains();
    assert_eq!(cs.len(), 16);
    for c in &cs {
        assert_eq!(c.elements, vec![ElementKind::AppSrc, ElementKind::AudioConvert, ElementKind::AutoAudioSink]);
    }
}

#[test]
fn caps_and_properties_per_element() {
    assert!(ElementKind::CapsFilter.needs_voice_caps());
    assert!(ElementKind::AppSink.needs_voice_caps());
    assert!(ElementKind::AppSrc.needs_voice_caps());
    assert!(!ElementKind::AutoAudioSrc.needs_voice_caps());
    assert!(!ElementKind::AudioConvert.needs_voice_caps());
    assert!(ElementKind::AutoAudioSink.async_handling());
    assert!(!ElementKind::AppSrc.async_handling());
}

#[test]
fn voice_caps_values() {
    let c = voice_caps();
    assert_eq!(c.format, SampleFormat::S16);
    assert_eq!(c.layout, ChannelLayout::Interleaved);
    assert_eq!(c.channels, 1);
    assert_eq!(c.rate, 16000);
    assert_eq!(c.media_type(), "audio/x-raw");
    assert_eq!(c.layout_name(), "interleaved");
}

#[test]
fn empty_chain_has_no_links() {
    let c = mumblebot::Chain { elements: vec![] };
    assert!(c.links().is_empty());
    let c = mumblebot::Chain { elements: vec![ElementKind::AppSrc] };
    assert!(c.links().is_empty());
}
