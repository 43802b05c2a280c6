use video_compressor::config::{
    lookup, AppConfig, OutputFormat, DEFAULT_OUTPUT_FORMAT, FALLBACK_CRF, FALLBACK_CRF_RANGE,
};

#[test]
fn all_lists_the_three_profiles_in_order() {
    assert_eq!(
        OutputFormat::all(),
        vec![OutputFormat::MP4, OutputFormat::WebM, OutputFormat::MKV]
    );
}

#[test]
fn extensions_of_the_three_profiles() {
    assert_eq!(OutputFormat::MP4.extension(), "mp4");
    assert_eq!(OutputFormat::WebM.extension(), "webm");
    assert_eq!(OutputFormat::MKV.extension(), "mkv");
}

#[test]
fn extensions_differ_between_profiles() {
    let all = OutputFormat::all();
    for (i, a) in all.iter().enumerate() {
        for (j, b) in all.iter().enumerate() {
            if i != j {
                assert_ne!(a.extension(), b.extension());
            }
        }
    }
}

#[test]
fn video_codecs_of_the_three_profiles() {
    assert_eq!(OutputFormat::MP4.codec(), "libx264");
    assert_eq!(OutputFormat::WebM.codec(), "libvpx-vp9");
    assert_eq!(OutputFormat::MKV.codec(), "libx264");
}

#[test]
fn audio_codecs_of_the_three_profiles() {
    assert_eq!(OutputFormat::MP4.audio_codec(), "aac");
    assert_eq!(OutputFormat::WebM.audio_codec(), "libopus");
    assert_eq!(OutputFormat::MKV.audio_codec(), "aac");
}

#[test]
fn default_profile_is_mp4() {
    assert_eq!(DEFAULT_OUTPUT_FORMAT, OutputFormat::MP4);
}

#[test]
fn reference_catalog_defaults() {
    let config = AppConfig::default();
    assert_eq!(config.get_default_crf(&OutputFormat::MP4), 23);
    assert_eq!(config.get_default_crf(&OutputFormat::WebM), 28);
    assert_eq!(config.get_default_crf(&OutputFormat::MKV), 23);
}

#[test]
fn reference_catalog_ranges() {
    let config = AppConfig::default();
    assert_eq!(config.get_crf_range(&OutputFormat::MP4), (18, 35));
    assert_eq!(config.get_crf_range(&OutputFormat::WebM), (15, 50));
    assert_eq!(config.get_crf_range(&OutputFormat::MKV), (18, 35));
}

#[test]
fn reference_defaults_lie_within_their_ranges() {
    let config = AppConfig::default();
    for format in OutputFormat::all() {
        let (low, high) = config.get_crf_range(&format);
        let crf = config.get_default_crf(&format);
        assert!(low <= crf && crf <= high);
    }
}

#[test]
fn reference_catalog_settings() {
    let config = AppConfig::default();
    assert_eq!(config.default_fps_fix, 25);
    assert_eq!(config.default_fix_crf_h264, 18);
    assert_eq!(config.default_fix_crf_vp9, 18);
    assert_eq!(config.temp_fixed_video_suffix, "_temp_fixed_cfr");
    assert_eq!(config.compressed_video_suffix, "_compressed");
}

#[test]
fn a_profile_that_is_not_listed_falls_back() {
    let mut config = AppConfig::default();
    config.crf_defaults = vec![(OutputFormat::MP4, 20)];
    config.crf_ranges = vec![(OutputFormat::WebM, (1, 2))];
    assert_eq!(config.get_default_crf(&OutputFormat::MP4), 20);
    assert_eq!(config.get_default_crf(&OutputFormat::MKV), FALLBACK_CRF);
    assert_eq!(config.get_default_crf(&OutputFormat::MKV), 23);
    assert_eq!(config.get_crf_range(&OutputFormat::WebM), (1, 2));
    assert_eq!(config.get_crf_range(&OutputFormat::MP4), FALLBACK_CRF_RANGE);
    assert_eq!(config.get_crf_range(&OutputFormat::MP4), (18, 35));
}

#[test]
fn the_first_entry_of_a_profile_counts() {
    let mut config = AppConfig::default();
    config.crf_defaults = vec![
        (OutputFormat::WebM, 30),
        (OutputFormat::MP4, 21),
        (OutputFormat::WebM, 40),
    ];
    assert_eq!(config.get_default_crf(&OutputFormat::WebM), 30);
    assert_eq!(config.get_default_crf(&OutputFormat::MP4), 21);
}

#[test]
fn labels_of_the_three_profiles() {
    assert_eq!(OutputFormat::MP4.label(), "MP4");
    assert_eq!(OutputFormat::WebM.label(), "WebM");
    assert_eq!(OutputFormat::MKV.label(), "MKV");
}

#[test]
fn lookup_gives_the_first_entry_or_the_fallback() {
    let entries = vec![(OutputFormat::WebM, 'a'), (OutputFormat::MP4, 'b'), (OutputFormat::WebM, 'c')];
    assert_eq!(lookup(&entries, OutputFormat::WebM, 'z'), 'a');
    assert_eq!(lookup(&entries, OutputFormat::MP4, 'z'), 'b');
    assert_eq!(lookup(&entries, OutputFormat::MKV, 'z'), 'z');
    assert_eq!(lookup(&Vec::new(), OutputFormat::MP4, 7u8), 7);
}
