//! Which hardware encoders the encoding tool lists.

use vstd::prelude::*;
use vstd::string::*;
use crate::config::OutputFormat;
use crate::ffmpeg_utils::FFmpegUtils;
use crate::text::{contains, occurs_at, occurs_in};

verus! {

/// A maker of hardware encoders.
#[derive(Debug, Clone, Copy, PartialEq, Eq, Structural)]
pub enum Vendor {
    Nvidia,
    Amd,
    Intel,
}

/// A family of video codecs.
#[derive(Debug, Clone, Copy, PartialEq, Eq, Structural)]
pub enum CodecFamily {
    H264,
    Hevc,
    Vp9,
}

/// A hardware encoder: one codec family on one vendor's hardware.
#[derive(Debug, Clone, Copy, PartialEq, Eq, Structural)]
pub struct HardwareEncoder {
    pub vendor: Vendor,
    pub family: CodecFamily,
}

/// What a listing of encoders says of the hardware.
#[derive(Debug, Clone, PartialEq, Eq)]
pub struct Capabilities {
    /// Some vendor's tag occurs in the listing.
    pub hardware: bool,
    /// The vendor whose encoders are used: the first, in the order Nvidia,
    /// Amd, Intel, whose tag occurs in the listing.
    pub vendor: Option<Vendor>,
    /// The known hardware encoders that the listing names, in catalog order.
    pub encoders: Vec<HardwareEncoder>,
}

impl Vendor {
    /// The tag by which the encoding tool marks the vendor's encoders.
    pub open spec fn spec_tag(self) -> Seq<char> {
        match self {
            Vendor::Nvidia => "nvenc"@,
            Vendor::Amd => "amf"@,
            Vendor::Intel => "qsv"@,
        }
    }

    /// The tag by which the encoding tool marks the vendor's encoders.
    pub fn tag(&self) -> (text: &'static str)
        ensures
            text@ == self.spec_tag(),
    {
        match self {
            Vendor::Nvidia => "nvenc",
            Vendor::Amd => "amf",
            Vendor::Intel => "qsv",
        }
    }
}

impl HardwareEncoder {
    /// The name under which the encoding tool lists the encoder.
    pub open spec fn spec_name(self) -> Seq<char> {
        match (self.family, self.vendor) {
            (CodecFamily::H264, Vendor::Nvidia) => "h264_nvenc"@,
            (CodecFamily::Hevc, Vendor::Nvidia) => "hevc_nvenc"@,
            (CodecFamily::H264, Vendor::Amd) => "h264_amf"@,
            (CodecFamily::Hevc, Vendor::Amd) => "hevc_amf"@,
            (CodecFamily::H264, Vendor::Intel) => "h264_qsv"@,
            (CodecFamily::Hevc, Vendor::Intel) => "hevc_qsv"@,
            (CodecFamily::Vp9, Vendor::Nvidia) => "vp9_nvenc"@,
            (CodecFamily::Vp9, Vendor::Amd) => "vp9_amf"@,
            (CodecFamily::Vp9, Vendor::Intel) => "vp9_qsv"@,
        }
    }

    /// How the encoder is shown to a person.
    pub open spec fn spec_label(self) -> Seq<char> {
        match (self.family, self.vendor) {
            (CodecFamily::H264, Vendor::Nvidia) => "NVIDIA NVENC (h264)"@,
            (CodecFamily::Hevc, Vendor::Nvidia) => "NVIDIA NVENC (hevc)"@,
            (CodecFamily::H264, Vendor::Amd) => "AMD AMF (h264)"@,
            (CodecFamily::Hevc, Vendor::Amd) => "AMD AMF (hevc)"@,
            (CodecFamily::H264, Vendor::Intel) => "Intel Quick Sync (h264)"@,
            (CodecFamily::Hevc, Vendor::Intel) => "Intel Quick Sync (hevc)"@,
            (CodecFamily::Vp9, Vendor::Nvidia) => "NVIDIA NVENC (vp9)"@,
            (CodecFamily::Vp9, Vendor::Amd) => "AMD AMF (vp9)"@,
            (CodecFamily::Vp9, Vendor::Intel) => "Intel Quick Sync (vp9)"@,
        }
    }

    /// The name under which the encoding tool lists the encoder.
    pub fn name(&self) -> (text: &'static str)
        ensures
            text@ == self.spec_name(),
    {
        match (self.family, self.vendor) {
            (CodecFamily::H264, Vendor::Nvidia) => "h264_nvenc",
            (CodecFamily::Hevc, Vendor::Nvidia) => "hevc_nvenc",
            (CodecFamily::H264, Vendor::Amd) => "h264_amf",
            (CodecFamily::Hevc, Vendor::Amd) => "hevc_amf",
            (CodecFamily::H264, Vendor::Intel) => "h264_qsv",
            (CodecFamily::Hevc, Vendor::Intel) => "hevc_qsv",
            (CodecFamily::Vp9, Vendor::Nvidia) => "vp9_nvenc",
            (CodecFamily::Vp9, Vendor::Amd) => "vp9_amf",
            (CodecFamily::Vp9, Vendor::Intel) => "vp9_qsv",
        }
    }

    /// How the encoder is shown to a person.
    pub fn label(&self) -> (text: &'static str)
        ensures
            text@ == self.spec_label(),
    {
        match (self.family, self.vendor) {
            (CodecFamily::H264, Vendor::Nvidia) => "NVIDIA NVENC (h264)",
            (CodecFamily::Hevc, Vendor::Nvidia) => "NVIDIA NVENC (hevc)",
            (CodecFamily::H264, Vendor::Amd) => "AMD AMF (h264)",
            (CodecFamily::Hevc, Vendor::Amd) => "AMD AMF (hevc)",
            (CodecFamily::H264, Vendor::Intel) => "Intel Quick Sync (h264)",
            (CodecFamily::Hevc, Vendor::Intel) => "Intel Quick Sync (hevc)",
            (CodecFamily::Vp9, Vendor::Nvidia) => "NVIDIA NVENC (vp9)",
            (CodecFamily::Vp9, Vendor::Amd) => "AMD AMF (vp9)",
            (CodecFamily::Vp9, Vendor::Intel) => "Intel Quick Sync (vp9)",
        }
    }
}

/// The family of the video codec of a profile.
pub open spec fn family_of(format: OutputFormat) -> CodecFamily {
    match format {
        OutputFormat::MP4 => CodecFamily::H264,
        OutputFormat::WebM => CodecFamily::Vp9,
        OutputFormat::MKV => CodecFamily::H264,
    }
}

/// The hardware encoders that are looked for in a listing, in the order in
/// which they are reported.
pub open spec fn known_encoders() -> Seq<HardwareEncoder> {
    seq![
        HardwareEncoder { vendor: Vendor::Nvidia, family: CodecFamily::H264 },
        HardwareEncoder { vendor: Vendor::Nvidia, family: CodecFamily::Hevc },
        HardwareEncoder { vendor: Vendor::Amd, family: CodecFamily::H264 },
        HardwareEncoder { vendor: Vendor::Amd, family: CodecFamily::Hevc },
        HardwareEncoder { vendor: Vendor::Intel, family: CodecFamily::H264 },
        HardwareEncoder { vendor: Vendor::Intel, family: CodecFamily::Hevc },
    ]
}

/// Those of the first `upto` known encoders whose name occurs in `listing`.
pub open spec fn listed_among(listing: Seq<char>, upto: int) -> Seq<HardwareEncoder>
    decreases upto,
{
    if upto <= 0 {
        Seq::empty()
    } else {
        let before = listed_among(listing, upto - 1);
        let encoder = known_encoders()[upto - 1];
        if occurs_in(encoder.spec_name(), listing) {
            before.push(encoder)
        } else {
            before
        }
    }
}

/// The known encoders whose name occurs in `listing`.
pub open spec fn listed_encoders(listing: Seq<char>) -> Seq<HardwareEncoder> {
    listed_among(listing, known_encoders().len() as int)
}

/// The vendor whose tag occurs in `listing`: the first, in the order
/// Nvidia, Amd, Intel.
pub open spec fn listed_vendor(listing: Seq<char>) -> Option<Vendor> {
    if occurs_in(Vendor::Nvidia.spec_tag(), listing) {
        Some(Vendor::Nvidia)
    } else if occurs_in(Vendor::Amd.spec_tag(), listing) {
        Some(Vendor::Amd)
    } else if occurs_in(Vendor::Intel.spec_tag(), listing) {
        Some(Vendor::Intel)
    } else {
        None
    }
}

/// The tag of some vendor occurs in `listing`.
pub open spec fn hardware_listed(listing: Seq<char>) -> bool {
    listed_vendor(listing).is_some()
}

/// The characters of an optional text.
pub open spec fn optional_text(text: Option<&str>) -> Option<Seq<char>> {
    match text {
        Some(held) => Some(held@),
        None => None,
    }
}

/// The vendor whose hardware an encoder listing shows; a listing that
/// could not be had shows none.
pub open spec fn gpu_vendor(listing: Option<Seq<char>>) -> Option<Vendor> {
    match listing {
        Some(text) => listed_vendor(text),
        None => None,
    }
}

/// Whether an encoder listing shows hardware acceleration; a listing that
/// could not be had shows none.
pub open spec fn gpu_available(listing: Option<Seq<char>>) -> bool {
    gpu_vendor(listing).is_some()
}

/// `parts` in a row with `separator` between each two.
pub open spec fn joined(parts: Seq<Seq<char>>, separator: Seq<char>) -> Seq<char>
    decreases parts.len(),
{
    if parts.len() == 0 {
        Seq::empty()
    } else if parts.len() == 1 {
        parts[0]
    } else {
        joined(parts.drop_last(), separator) + separator + parts.last()
    }
}

/// The labels of `encoders`, in their order.
pub open spec fn labels_of(encoders: Seq<HardwareEncoder>) -> Seq<Seq<char>> {
    encoders.map_values(|encoder: HardwareEncoder| encoder.spec_label())
}

/// The line that tells a person which hardware encoders there are.
pub open spec fn gpu_summary(listing: Option<Seq<char>>) -> Seq<char> {
    match listing {
        None => "Не удалось получить информацию о GPU"@,
        Some(text) => {
            let found = listed_encoders(text);
            if found.len() == 0 {
                "GPU не обнаружены"@
            } else {
                "Доступные GPU: "@ + joined(labels_of(found), ", "@)
            }
        },
    }
}

/// A text that holds `inner` holds everything that `inner` holds.
pub proof fn occurs_in_is_transitive(part: Seq<char>, inner: Seq<char>, outer: Seq<char>)
    requires
        occurs_in(part, inner),
        occurs_in(inner, outer),
    ensures
        occurs_in(part, outer),
{
    let i = choose|i: int| occurs_at(part, inner, i);
    let j = choose|j: int| occurs_at(inner, outer, j);
    assert(outer.subrange(j + i, j + i + part.len()) =~= outer.subrange(
        j,
        j + inner.len(),
    ).subrange(i, i + part.len()));
    assert(occurs_at(part, outer, j + i));
}

/// The name of every hardware encoder holds the tag of its vendor.
pub proof fn name_holds_tag(encoder: HardwareEncoder)
    ensures
        occurs_in(encoder.vendor.spec_tag(), encoder.spec_name()),
{
    reveal_strlit("vp9_nvenc");
    reveal_strlit("vp9_amf");
    reveal_strlit("vp9_qsv");
    reveal_strlit("nvenc");
    reveal_strlit("amf");
    reveal_strlit("qsv");
    reveal_strlit("h264_nvenc");
    reveal_strlit("hevc_nvenc");
    reveal_strlit("h264_amf");
    reveal_strlit("hevc_amf");
    reveal_strlit("h264_qsv");
    reveal_strlit("hevc_qsv");
    let name = encoder.spec_name();
    let tag = encoder.vendor.spec_tag();
    let at: int = if encoder.family == CodecFamily::Vp9 {
        4
    } else {
        5
    };
    assert(name.subrange(at, at + tag.len() as int) =~= tag);
    assert(occurs_at(tag, name, at));
}

/// Every encoder that is reported for a listing is a known one whose name
/// occurs there.
pub proof fn listed_among_holds(listing: Seq<char>, upto: int, at: int)
    requires
        0 <= upto <= known_encoders().len(),
        0 <= at < listed_among(listing, upto).len(),
    ensures
        occurs_in(listed_among(listing, upto)[at].spec_name(), listing),
    decreases upto,
{
    if upto > 0 {
        let before = listed_among(listing, upto - 1);
        if at < before.len() {
            listed_among_holds(listing, upto - 1, at);
        }
    }
}

/// A listing that names a known hardware encoder shows hardware
/// acceleration.
pub proof fn listed_encoder_shows_hardware(listing: Seq<char>)
    requires
        listed_encoders(listing).len() > 0,
    ensures
        hardware_listed(listing),
{
    let encoder = listed_encoders(listing)[0];
    listed_among_holds(listing, known_encoders().len() as int, 0);
    name_holds_tag(encoder);
    occurs_in_is_transitive(encoder.vendor.spec_tag(), encoder.spec_name(), listing);
}

impl OutputFormat {
    /// The family of the video codec of the profile.
    pub fn family(&self) -> (family: CodecFamily)
        ensures
            family == family_of(*self),
    {
        match self {
            OutputFormat::MP4 => CodecFamily::H264,
            OutputFormat::WebM => CodecFamily::Vp9,
            OutputFormat::MKV => CodecFamily::H264,
        }
    }
}

/// The known hardware encoders, in the order in which they are reported.
pub fn catalog() -> (encoders: Vec<HardwareEncoder>)
    ensures
        encoders@ == known_encoders(),
{
    let mut encoders: Vec<HardwareEncoder> = Vec::new();
    encoders.push(HardwareEncoder { vendor: Vendor::Nvidia, family: CodecFamily::H264 });
    encoders.push(HardwareEncoder { vendor: Vendor::Nvidia, family: CodecFamily::Hevc });
    encoders.push(HardwareEncoder { vendor: Vendor::Amd, family: CodecFamily::H264 });
    encoders.push(HardwareEncoder { vendor: Vendor::Amd, family: CodecFamily::Hevc });
    encoders.push(HardwareEncoder { vendor: Vendor::Intel, family: CodecFamily::H264 });
    encoders.push(HardwareEncoder { vendor: Vendor::Intel, family: CodecFamily::Hevc });
    assert(encoders@ =~= known_encoders());
    encoders
}

/// Reads a listing of encoders. A listing that could not be had shows no
/// hardware and no encoder.
pub fn detect(listing: Option<&str>) -> (found: Capabilities)
    ensures
        found.hardware == gpu_available(optional_text(listing)),
        found.vendor == gpu_vendor(optional_text(listing)),
        found.encoders@ == match listing {
            Some(text) => listed_encoders(text@),
            None => Seq::empty(),
        },
{
    let text = match listing {
        Some(text) => text,
        None => {
            return Capabilities { hardware: false, vendor: None, encoders: Vec::new() };
        },
    };
    let vendor = if contains(text, Vendor::Nvidia.tag()) {
        Some(Vendor::Nvidia)
    } else if contains(text, Vendor::Amd.tag()) {
        Some(Vendor::Amd)
    } else if contains(text, Vendor::Intel.tag()) {
        Some(Vendor::Intel)
    } else {
        None
    };
    let hardware = vendor.is_some();
    let known = catalog();
    let mut encoders: Vec<HardwareEncoder> = Vec::new();
    let mut i: usize = 0;
    while i < known.len()
        invariant
            i <= known.len(),
            known@ == known_encoders(),
            encoders@ == listed_among(text@, i as int),
        decreases known.len() - i,
    {
        if contains(text, known[i].name()) {
            encoders.push(known[i]);
        }
        i += 1;
    }
    Capabilities { hardware, vendor, encoders }
}

/// The line that tells a person which of `encoders` there are.
fn join_labels(encoders: &Vec<HardwareEncoder>) -> (line: String)
    ensures
        line@ == joined(labels_of(encoders@), ", "@),
{
    let mut line = String::new();
    let mut i: usize = 0;
    while i < encoders.len()
        invariant
            i <= encoders.len(),
            line@ == joined(labels_of(encoders@).take(i as int), ", "@),
        decreases encoders.len() - i,
    {
        let ghost labels = labels_of(encoders@);
        proof {
            assert(labels.take(i + 1).drop_last() == labels.take(i as int));
            assert(labels.take(i + 1).last() == encoders@[i as int].spec_label());
        }
        if i > 0 {
            line.append(", ");
        }
        line.append(encoders[i].label());
        proof {
            if i == 0 {
                assert(labels.take(0).len() == 0);
                assert(line@ =~= encoders@[0].spec_label());
            }
        }
        i += 1;
    }
    assert(labels_of(encoders@).take(encoders.len() as int) == labels_of(encoders@));
    line
}

impl FFmpegUtils {
    /// The line that tells a person which hardware encoders the listing
    /// names, or that there are none, or that no listing could be had.
    pub fn get_gpu_info(&self, listing: Option<&str>) -> (line: String)
        ensures
            line@ == gpu_summary(optional_text(listing)),
    {
        if listing.is_none() {
            return String::from_str("Не удалось получить информацию о GPU");
        }
        let found = detect(listing);
        if found.encoders.len() == 0 {
            String::from_str("GPU не обнаружены")
        } else {
            let mut line = String::from_str("Доступные GPU: ");
            let labels = join_labels(&found.encoders);
            line.append(labels.as_str());
            line
        }
    }

    /// Whether the listing shows hardware acceleration.
    pub fn is_gpu_available(&self, listing: Option<&str>) -> (available: bool)
        ensures
            available == gpu_available(optional_text(listing)),
    {
        detect(listing).hardware
    }
}

} // verus!
