//! Output profiles: which container is written, with which codecs, and the
//! quality parameter (CRF) defaults and ranges that go with each.

use vstd::prelude::*;
use vstd::string::*;

verus! {

/// The closed set of output containers.
#[derive(Debug, Clone, Copy, PartialEq, Eq, Structural, Hash)]
pub enum OutputFormat {
    MP4,
    WebM,
    MKV,
}

/// The profile that is selected at the start.
pub const DEFAULT_OUTPUT_FORMAT: OutputFormat = OutputFormat::MP4;

impl OutputFormat {
    /// File extension of the container, without the dot.
    pub open spec fn spec_extension(self) -> Seq<char> {
        match self {
            OutputFormat::MP4 => "mp4"@,
            OutputFormat::WebM => "webm"@,
            OutputFormat::MKV => "mkv"@,
        }
    }

    /// Name of the software video encoder of the profile.
    pub open spec fn spec_codec(self) -> Seq<char> {
        match self {
            OutputFormat::MP4 => "libx264"@,
            OutputFormat::WebM => "libvpx-vp9"@,
            OutputFormat::MKV => "libx264"@,
        }
    }

    /// Name of the audio encoder of the profile.
    pub open spec fn spec_audio_codec(self) -> Seq<char> {
        match self {
            OutputFormat::MP4 => "aac"@,
            OutputFormat::WebM => "libopus"@,
            OutputFormat::MKV => "aac"@,
        }
    }

    /// How the profile is shown to a person.
    pub open spec fn spec_label(self) -> Seq<char> {
        match self {
            OutputFormat::MP4 => "MP4"@,
            OutputFormat::WebM => "WebM"@,
            OutputFormat::MKV => "MKV"@,
        }
    }

    /// Every profile, in the order in which a pick list shows them.
    pub fn all() -> (formats: Vec<Self>)
        ensures
            formats@ == seq![OutputFormat::MP4, OutputFormat::WebM, OutputFormat::MKV],
    {
        let mut formats: Vec<Self> = Vec::new();
        formats.push(OutputFormat::MP4);
        formats.push(OutputFormat::WebM);
        formats.push(OutputFormat::MKV);
        formats
    }

    /// How the profile is shown to a person.
    pub fn label(&self) -> (text: &'static str)
        ensures
            text@ == self.spec_label(),
    {
        match self {
            OutputFormat::MP4 => "MP4",
            OutputFormat::WebM => "WebM",
            OutputFormat::MKV => "MKV",
        }
    }

    /// File extension of the container, without the dot.
    pub fn extension(&self) -> (text: &'static str)
        ensures
            text@ == self.spec_extension(),
    {
        match self {
            OutputFormat::MP4 => "mp4",
            OutputFormat::WebM => "webm",
            OutputFormat::MKV => "mkv",
        }
    }

    /// Name of the software video encoder of the profile.
    pub fn codec(&self) -> (text: &'static str)
        ensures
            text@ == self.spec_codec(),
    {
        match self {
            OutputFormat::MP4 => "libx264",
            OutputFormat::WebM => "libvpx-vp9",
            OutputFormat::MKV => "libx264",
        }
    }

    /// Name of the audio encoder of the profile.
    pub fn audio_codec(&self) -> (text: &'static str)
        ensures
            text@ == self.spec_audio_codec(),
    {
        match self {
            OutputFormat::MP4 => "aac",
            OutputFormat::WebM => "libopus",
            OutputFormat::MKV => "aac",
        }
    }
}

/// Quality parameter of a profile that the catalog does not list.
pub const FALLBACK_CRF: u8 = 23;

/// Quality range of a profile that the catalog does not list.
pub const FALLBACK_CRF_RANGE: (u8, u8) = (18, 35);

/// The catalog of quality parameters, with what the normalization pass and
/// the file naming are set to.
#[derive(Debug, Clone)]
pub struct AppConfig {
    /// Default quality parameter of each profile.
    pub crf_defaults: Vec<(OutputFormat, u8)>,
    /// Lowest and highest quality parameter of each profile.
    pub crf_ranges: Vec<(OutputFormat, (u8, u8))>,
    /// Frames per second that the normalization pass forces.
    pub default_fps_fix: u32,
    pub default_fix_crf_h264: u8,
    pub default_fix_crf_vp9: u8,
    pub temp_fixed_video_suffix: String,
    pub compressed_video_suffix: String,
}

/// What the first entry for `format` holds, `fallback` where there is none.
pub open spec fn entry_for<T>(entries: Seq<(OutputFormat, T)>, format: OutputFormat, fallback: T) -> T
    decreases entries.len(),
{
    if entries.len() == 0 {
        fallback
    } else if entries[0].0 == format {
        entries[0].1
    } else {
        entry_for(entries.subrange(1, entries.len() as int), format, fallback)
    }
}

/// No profile has two entries.
pub open spec fn listed_once<T>(entries: Seq<(OutputFormat, T)>) -> bool {
    forall|i: int, j: int|
        0 <= i < j < entries.len() ==> (#[trigger] entries[i]).0 != (#[trigger] entries[j]).0
}

proof fn entry_for_skips<T>(
    entries: Seq<(OutputFormat, T)>,
    format: OutputFormat,
    fallback: T,
    upto: int,
)
    requires
        0 <= upto <= entries.len(),
        forall|i: int| 0 <= i < upto ==> (#[trigger] entries[i]).0 != format,
    ensures
        entry_for(entries, format, fallback) == entry_for(
            entries.subrange(upto, entries.len() as int),
            format,
            fallback,
        ),
    decreases upto,
{
    if upto == 0 {
        assert(entries.subrange(0, entries.len() as int) == entries);
    } else {
        let rest = entries.subrange(1, entries.len() as int);
        assert(entries[0].0 != format);
        assert forall|i: int| 0 <= i < upto - 1 implies (#[trigger] rest[i]).0 != format by {
            assert(rest[i] == entries[i + 1]);
        }
        entry_for_skips(rest, format, fallback, upto - 1);
        assert(rest.subrange(upto - 1, rest.len() as int) == entries.subrange(
            upto,
            entries.len() as int,
        ));
    }
}

impl AppConfig {
    /// The catalog is the reference catalog.
    pub open spec fn is_reference(&self) -> bool {
        &&& self.crf_defaults@ == seq![
            (OutputFormat::MP4, 23u8),
            (OutputFormat::WebM, 28u8),
            (OutputFormat::MKV, 23u8),
        ]
        &&& self.crf_ranges@ == seq![
            (OutputFormat::MP4, (18u8, 35u8)),
            (OutputFormat::WebM, (15u8, 50u8)),
            (OutputFormat::MKV, (18u8, 35u8)),
        ]
        &&& self.default_fps_fix == 25
        &&& self.default_fix_crf_h264 == 18
        &&& self.default_fix_crf_vp9 == 18
        &&& self.temp_fixed_video_suffix@ == "_temp_fixed_cfr"@
        &&& self.compressed_video_suffix@ == "_compressed"@
    }

    /// The catalog lists every profile once, each default lies within its
    /// range, and no range is empty.
    pub open spec fn well_formed(&self) -> bool {
        &&& listed_once(self.crf_defaults@)
        &&& listed_once(self.crf_ranges@)
        &&& forall|format: OutputFormat|
            {
                let range = #[trigger] self.spec_crf_range(format);
                range.0 <= self.spec_default_crf(format) <= range.1
            }
    }

    /// Default quality parameter of `format`: what its first entry holds,
    /// `FALLBACK_CRF` where it has none.
    pub open spec fn spec_default_crf(&self, format: OutputFormat) -> u8 {
        entry_for(self.crf_defaults@, format, FALLBACK_CRF)
    }

    /// Lowest and highest quality parameter of `format`: what its first entry
    /// holds, `FALLBACK_CRF_RANGE` where it has none.
    pub open spec fn spec_crf_range(&self, format: OutputFormat) -> (u8, u8) {
        entry_for(self.crf_ranges@, format, FALLBACK_CRF_RANGE)
    }

    /// Default quality parameter of `format`; `FALLBACK_CRF` for a profile
    /// that the catalog does not list.
    pub fn get_default_crf(&self, format: &OutputFormat) -> (crf: u8)
        ensures
            crf == self.spec_default_crf(*format),
    {
        lookup(&self.crf_defaults, *format, FALLBACK_CRF)
    }

    /// Lowest and highest quality parameter of `format`;
    /// `FALLBACK_CRF_RANGE` for a profile that the catalog does not list.
    pub fn get_crf_range(&self, format: &OutputFormat) -> (range: (u8, u8))
        ensures
            range == self.spec_crf_range(*format),
    {
        lookup(&self.crf_ranges, *format, FALLBACK_CRF_RANGE)
    }
}

/// What the first entry for `format` holds, `fallback` where there is none.
pub fn lookup<T: Copy>(entries: &Vec<(OutputFormat, T)>, format: OutputFormat, fallback: T) -> (held:
    T)
    ensures
        held == entry_for(entries@, format, fallback),
{
    let mut i: usize = 0;
    while i < entries.len()
        invariant
            i <= entries.len(),
            forall|j: int| 0 <= j < i ==> (#[trigger] entries@[j]).0 != format,
        decreases entries.len() - i,
    {
        if entries[i].0 == format {
            proof {
                entry_for_skips(entries@, format, fallback, i as int);
                let rest = entries@.subrange(i as int, entries.len() as int);
                assert(rest[0] == entries@[i as int]);
            }
            return entries[i].1;
        }
        i += 1;
    }
    proof {
        entry_for_skips(entries@, format, fallback, entries.len() as int);
    }
    fallback
}

impl Default for AppConfig {
    /// The reference catalog.
    fn default() -> (config: Self)
        ensures
            config.is_reference(),
            config.well_formed(),
    {
        let mut crf_defaults: Vec<(OutputFormat, u8)> = Vec::new();
        crf_defaults.push((OutputFormat::MP4, 23));
        crf_defaults.push((OutputFormat::WebM, 28));
        crf_defaults.push((OutputFormat::MKV, 23));
        let mut crf_ranges: Vec<(OutputFormat, (u8, u8))> = Vec::new();
        crf_ranges.push((OutputFormat::MP4, (18, 35)));
        crf_ranges.push((OutputFormat::WebM, (15, 50)));
        crf_ranges.push((OutputFormat::MKV, (18, 35)));
        let config = AppConfig {
            crf_defaults,
            crf_ranges,
            default_fps_fix: 25,
            default_fix_crf_h264: 18,
            default_fix_crf_vp9: 18,
            temp_fixed_video_suffix: String::from_str("_temp_fixed_cfr"),
            compressed_video_suffix: String::from_str("_compressed"),
        };
        proof {
            assert(config.crf_defaults@ =~= seq![
                (OutputFormat::MP4, 23u8),
                (OutputFormat::WebM, 28u8),
                (OutputFormat::MKV, 23u8),
            ]);
            assert(config.crf_ranges@ =~= seq![
                (OutputFormat::MP4, (18u8, 35u8)),
                (OutputFormat::WebM, (15u8, 50u8)),
                (OutputFormat::MKV, (18u8, 35u8)),
            ]);
            reference_catalog(config);
        }
        config
    }
}

/// Default quality parameter of a profile in the reference catalog.
pub open spec fn reference_crf(format: OutputFormat) -> u8 {
    match format {
        OutputFormat::MP4 => 23,
        OutputFormat::WebM => 28,
        OutputFormat::MKV => 23,
    }
}

/// Quality range of a profile in the reference catalog.
pub open spec fn reference_crf_range(format: OutputFormat) -> (u8, u8) {
    match format {
        OutputFormat::MP4 => (18, 35),
        OutputFormat::WebM => (15, 50),
        OutputFormat::MKV => (18, 35),
    }
}

/// In the reference catalog every profile is listed once, with its
/// reference default and range, and has its default within its range.
pub proof fn reference_catalog(config: AppConfig)
    requires
        config.is_reference(),
    ensures
        config.well_formed(),
        forall|format: OutputFormat|
            #[trigger] config.spec_default_crf(format) == reference_crf(format),
        forall|format: OutputFormat|
            #[trigger] config.spec_crf_range(format) == reference_crf_range(format),
{
    reveal_with_fuel(entry_for, 4);
    let defaults = config.crf_defaults@;
    let ranges = config.crf_ranges@;
    assert(defaults.subrange(1, 3) =~= seq![(OutputFormat::WebM, 28u8), (OutputFormat::MKV, 23u8)]);
    assert(defaults.subrange(1, 3).subrange(1, 2) =~= seq![(OutputFormat::MKV, 23u8)]);
    assert(ranges.subrange(1, 3) =~= seq![
        (OutputFormat::WebM, (15u8, 50u8)),
        (OutputFormat::MKV, (18u8, 35u8)),
    ]);
    assert(ranges.subrange(1, 3).subrange(1, 2) =~= seq![(OutputFormat::MKV, (18u8, 35u8))]);
    assert forall|format: OutputFormat|
        #[trigger] config.spec_default_crf(format) == reference_crf(format) by {
        match format {
            OutputFormat::MP4 => {},
            OutputFormat::WebM => {},
            OutputFormat::MKV => {},
        }
    }
    assert forall|format: OutputFormat|
        #[trigger] config.spec_crf_range(format) == reference_crf_range(format) by {
        match format {
            OutputFormat::MP4 => {},
            OutputFormat::WebM => {},
            OutputFormat::MKV => {},
        }
    }
}

/// Two different profiles never share a file extension.
pub proof fn extensions_are_distinct(a: OutputFormat, b: OutputFormat)
    requires
        a != b,
    ensures
        a.spec_extension() != b.spec_extension(),
{
    reveal_strlit("mp4");
    reveal_strlit("webm");
    reveal_strlit("mkv");
    assert("mp4"@.len() == 3);
    assert("webm"@.len() == 4);
    assert("mkv"@.len() == 3);
    assert("mp4"@[1] == 'p');
    assert("mkv"@[1] == 'k');
}

} // verus!
