use mumblebot::{voice_caps, voice_spatializer, Attenuation, SpatializerConfig, VOICE_SLOTS};

#[test]
fn voice_spatializer_values() {
    let c = voice_spatializer();
    assert_eq!(c.max_num_sources, 16);
    assert_eq!(c.sample_rate, 16000);
    assert_eq!(c.buffer_length, 160);
}

#[test]
fn every_source_is_set_up() {
    let c = voice_spatializer();
    let v = c.source_setups();
    assert_eq!(v.len(), 16);
    for (i, s) in v.iter().enumerate() {
        assert_eq!(s.sound, i as i32);
        assert_eq!(s.range_min, 0);
        assert_eq!(s.range_max, 1000);
        assert_eq!(s.attenuation, Attenuation::InverseSquare);
        assert_eq!(s.gain, 0);
    }
}

#[test]
fn no_sources_no_setups() {
    let c = SpatializerConfig { max_num_sources: 0, sample_rate: 8000, buffer_length: 80 };
    assert!(c.source_setups().is_empty());
    assert_eq!(c.interleaved_len(), 160);
}

#[test]
fn output_is_interleaved_stereo() {
    assert_eq!(voice_spatializer().interleaved_len(), 320);
}

#[test]
fn voice_setup_agrees() {
    let c = voice_spatializer();
    assert_eq!(c.max_num_sources as usize, VOICE_SLOTS);
    assert_eq!(c.sample_rate as i32, voice_caps().rate);
    assert_eq!(c.buffer_length * 100, c.sample_rate);
}
