//! What the probing tool reports of a file, and how the engine reads it.

use vstd::prelude::*;
use vstd::string::*;
use crate::encoders::{gpu_available, gpu_summary, optional_text};
use crate::ffmpeg_utils::FFmpegUtils;
use crate::json::{parse_document, parsed_document, Json};
use crate::text::{parse_u64, same_text, split_at_first, split_once, unsigned_value};

verus! {

/// What one report of the probing tool says of a file. A field that the
/// report lacks, or that cannot be read, has its zero: `None`, `0`, `false`.
#[derive(Debug, Clone, PartialEq, Eq)]
pub struct ProbeReport {
    /// Duration in seconds, as the tool wrote it.
    pub duration: Option<String>,
    pub size_bytes: u64,
    pub bitrate: u64,
    pub width: u32,
    pub height: u32,
    /// Numerator and denominator of the average frame rate, as the tool
    /// wrote them on both sides of the stroke.
    pub frame_rate: Option<(String, String)>,
    /// The declared frame rates are degenerate: the stream has to be
    /// brought to a constant rate before it is encoded.
    pub needs_vfr_fix: bool,
}

/// A `ProbeReport` with its texts as sequences of characters.
pub ghost struct ProbeFacts {
    pub duration: Option<Seq<char>>,
    pub size_bytes: u64,
    pub bitrate: u64,
    pub width: u32,
    pub height: u32,
    pub frame_rate: Option<(Seq<char>, Seq<char>)>,
    pub needs_vfr_fix: bool,
}

impl View for ProbeReport {
    type V = ProbeFacts;

    open spec fn view(&self) -> ProbeFacts {
        ProbeFacts {
            duration: match self.duration {
                Some(text) => Some(text@),
                None => None,
            },
            size_bytes: self.size_bytes,
            bitrate: self.bitrate,
            width: self.width,
            height: self.height,
            frame_rate: match self.frame_rate {
                Some((numerator, denominator)) => Some((numerator@, denominator@)),
                None => None,
            },
            needs_vfr_fix: self.needs_vfr_fix,
        }
    }
}

/// What is shown of a file: what the probing tool reports of it, and how
/// the machine would encode it.
#[derive(Debug, Clone, PartialEq, Eq)]
pub struct VideoInfo {
    pub path: String,
    pub report: ProbeReport,
    /// The line on the hardware encoders of the machine.
    pub gpu_info: String,
    /// `GPU` or `CPU`.
    pub processing_mode: String,
}

/// A `VideoInfo` with its texts as sequences of characters.
pub ghost struct VideoInfoModel {
    pub path: Seq<char>,
    pub report: ProbeFacts,
    pub gpu_info: Seq<char>,
    pub processing_mode: Seq<char>,
}

impl View for VideoInfo {
    type V = VideoInfoModel;

    open spec fn view(&self) -> VideoInfoModel {
        VideoInfoModel {
            path: self.path@,
            report: self.report@,
            gpu_info: self.gpu_info@,
            processing_mode: self.processing_mode@,
        }
    }
}

/// What is shown of the file `path`, given what the probing tool printed
/// and which encoders the encoding tool lists; `None` stands for a tool
/// that could not be launched.
pub open spec fn video_info(
    path: Seq<char>,
    output: Option<Seq<u8>>,
    listing: Option<Seq<char>>,
) -> VideoInfoModel {
    VideoInfoModel {
        path,
        report: probed_facts(output),
        gpu_info: gpu_summary(listing),
        processing_mode: if gpu_available(listing) {
            "GPU"@
        } else {
            "CPU"@
        },
    }
}

/// The report of a file of which nothing is known.
pub open spec fn unknown_facts() -> ProbeFacts {
    ProbeFacts {
        duration: None,
        size_bytes: 0,
        bitrate: 0,
        width: 0,
        height: 0,
        frame_rate: None,
        needs_vfr_fix: false,
    }
}

/// The string that the member `key` of `object` holds.
pub open spec fn text_member(object: Option<Json>, key: Seq<char>) -> Option<Seq<char>> {
    match object {
        Some(value) => match value.spec_get(key) {
            Some(member) => member.spec_str(),
            None => None,
        },
        None => None,
    }
}

/// The unsigned integer that the member `key` of `object` holds.
pub open spec fn u64_member(object: Option<Json>, key: Seq<char>) -> Option<u64> {
    match object {
        Some(value) => match value.spec_get(key) {
            Some(member) => member.spec_u64(),
            None => None,
        },
        None => None,
    }
}

/// The number that the text member `key` of `object` writes; 0 where the
/// member is missing or writes no unsigned integer of 64 bits.
pub open spec fn count_member(object: Option<Json>, key: Seq<char>) -> u64 {
    match text_member(object, key) {
        Some(text) => match unsigned_value(text) {
            Some(value) => value,
            None => 0,
        },
        None => 0,
    }
}

/// The low 32 bits of the integer member `key` of `object`; 0 where the
/// member is missing or is no unsigned integer.
pub open spec fn pixel_member(object: Option<Json>, key: Seq<char>) -> u32 {
    match u64_member(object, key) {
        Some(value) => (value % 0x1_0000_0000) as u32,
        None => 0,
    }
}

/// The stream declares itself as video.
pub open spec fn is_video(stream: Json) -> bool {
    text_member(Some(stream), "codec_type"@) == Some("video"@)
}

/// The first of `streams` that is video.
pub open spec fn first_video(streams: Seq<Json>) -> Option<Json>
    decreases streams.len(),
{
    if streams.len() == 0 {
        None
    } else if is_video(streams[0]) {
        Some(streams[0])
    } else {
        first_video(streams.subrange(1, streams.len() as int))
    }
}

/// The video stream that a document reports: the first video stream of its
/// array `streams`.
pub open spec fn video_stream(document: Json) -> Option<Json> {
    match document.spec_get("streams"@) {
        Some(streams) => match streams.spec_array() {
            Some(items) => first_video(items),
            None => None,
        },
        None => None,
    }
}

/// A nominal rate that is degenerate: the placeholder `1000/1` or the
/// undefined `0/0`.
pub open spec fn nominal_degenerate(nominal: Seq<char>) -> bool {
    nominal == "1000/1"@ || nominal == "0/0"@
}

/// An average rate that is degenerate: the undefined `0/0`.
pub open spec fn average_degenerate(average: Seq<char>) -> bool {
    average == "0/0"@
}

/// The declared rates are degenerate: the nominal rate is, or the average
/// rate is.
pub open spec fn rates_degenerate(nominal: Seq<char>, average: Seq<char>) -> bool {
    nominal_degenerate(nominal) || average_degenerate(average)
}

/// Whether a stream has to be brought to a constant frame rate: one of
/// the rates that it declares is degenerate. A rate that the stream does
/// not declare asks for nothing.
pub open spec fn stream_needs_fix(nominal: Option<Seq<char>>, average: Option<Seq<char>>) -> bool {
    ||| nominal matches Some(text) && nominal_degenerate(text)
    ||| average matches Some(text) && average_degenerate(text)
}

/// The frame rate of a stream: the two sides of the stroke of its average
/// rate. None where the stream declares no average rate, or one without a
/// stroke.
pub open spec fn stream_frame_rate(average: Option<Seq<char>>) -> Option<(Seq<char>, Seq<char>)> {
    match average {
        Some(text) => split_at_first(text, '/'),
        None => None,
    }
}

/// What a parsed report says of the file.
pub open spec fn probe_facts(document: Json) -> ProbeFacts {
    let format = document.spec_get("format"@);
    let stream = video_stream(document);
    ProbeFacts {
        duration: text_member(format, "duration"@),
        size_bytes: count_member(format, "size"@),
        bitrate: count_member(format, "bit_rate"@),
        width: pixel_member(stream, "width"@),
        height: pixel_member(stream, "height"@),
        frame_rate: stream_frame_rate(text_member(stream, "avg_frame_rate"@)),
        needs_vfr_fix: stream_needs_fix(
            text_member(stream, "r_frame_rate"@),
            text_member(stream, "avg_frame_rate"@),
        ),
    }
}

/// Each degenerate rate asks for the fix by itself: a nominal rate of
/// `1000/1` or of `0/0` whatever the average rate is, and an average rate of
/// `0/0` whatever the nominal rate is. No other pair asks for it.
pub proof fn degenerate_rates_need_the_fix(nominal: Seq<char>, average: Seq<char>)
    ensures
        nominal == "1000/1"@ ==> rates_degenerate(nominal, average),
        nominal == "0/0"@ ==> rates_degenerate(nominal, average),
        average == "0/0"@ ==> rates_degenerate(nominal, average),
        nominal != "1000/1"@ && nominal != "0/0"@ && average != "0/0"@ ==> !rates_degenerate(
            nominal,
            average,
        ),
{
}

/// The rates of a report are those of its video stream, each read by
/// itself. A degenerate rate asks for the fix whether the stream declares
/// the other rate or not; a stream that declares both asks for it exactly
/// where the pair is degenerate, and one that declares neither does not.
/// The frame rate comes from the average rate alone.
pub proof fn rates_of_a_report(document: Json)
    ensures
        ({
            let stream = video_stream(document);
            let nominal = text_member(stream, "r_frame_rate"@);
            let average = text_member(stream, "avg_frame_rate"@);
            let facts = probe_facts(document);
            &&& nominal == Some("1000/1"@) ==> facts.needs_vfr_fix
            &&& nominal == Some("0/0"@) ==> facts.needs_vfr_fix
            &&& average == Some("0/0"@) ==> facts.needs_vfr_fix
            &&& nominal.is_some() && average.is_some() ==> facts.needs_vfr_fix
                == rates_degenerate(nominal.unwrap(), average.unwrap())
            &&& nominal.is_none() && average.is_none() ==> !facts.needs_vfr_fix
            &&& facts.needs_vfr_fix == stream_needs_fix(nominal, average)
            &&& average.is_some() ==> facts.frame_rate == split_at_first(average.unwrap(), '/')
            &&& average.is_none() ==> facts.frame_rate.is_none()
        }),
{
}

/// A tool that could not be launched and output that is no JSON text leave
/// every field of the report at its zero.
pub proof fn unreadable_output_is_unknown(output: Option<Seq<u8>>)
    requires
        match output {
            Some(bytes) => parsed_document(bytes).is_none(),
            None => true,
        },
    ensures
        probed_facts(output) == unknown_facts(),
{
}

proof fn first_video_skips(streams: Seq<Json>, upto: int)
    requires
        0 <= upto <= streams.len(),
        forall|i: int| 0 <= i < upto ==> !is_video(#[trigger] streams[i]),
    ensures
        first_video(streams) == first_video(streams.subrange(upto, streams.len() as int)),
    decreases upto,
{
    if upto == 0 {
        assert(streams.subrange(0, streams.len() as int) == streams);
    } else {
        let rest = streams.subrange(1, streams.len() as int);
        assert(!is_video(streams[0]));
        assert forall|i: int| 0 <= i < upto - 1 implies !is_video(#[trigger] rest[i]) by {
            assert(rest[i] == streams[i + 1]);
        }
        first_video_skips(rest, upto - 1);
        assert(rest.subrange(upto - 1, rest.len() as int) == streams.subrange(
            upto,
            streams.len() as int,
        ));
    }
}

/// The string that the member `key` of `object` holds.
pub fn member_text<'a>(object: Option<&'a Json>, key: &str) -> (text: Option<&'a str>)
    ensures
        match text {
            Some(found) => text_member(deref_option(object), key@) == Some(found@),
            None => text_member(deref_option(object), key@).is_none(),
        },
{
    match object {
        Some(value) => match value.get(key) {
            Some(member) => member.as_str(),
            None => None,
        },
        None => None,
    }
}

/// The unsigned integer that the member `key` of `object` holds.
pub fn member_u64(object: Option<&Json>, key: &str) -> (value: Option<u64>)
    ensures
        value == u64_member(deref_option(object), key@),
{
    match object {
        Some(value) => match value.get(key) {
            Some(member) => member.as_u64(),
            None => None,
        },
        None => None,
    }
}

/// An optional reference as an optional value.
pub open spec fn deref_option(object: Option<&Json>) -> Option<Json> {
    match object {
        Some(value) => Some(*value),
        None => None,
    }
}

fn member_count(object: Option<&Json>, key: &str) -> (count: u64)
    ensures
        count == count_member(deref_option(object), key@),
{
    match member_text(object, key) {
        Some(text) => match parse_u64(text) {
            Some(value) => value,
            None => 0,
        },
        None => 0,
    }
}

fn member_pixels(object: Option<&Json>, key: &str) -> (pixels: u32)
    ensures
        pixels == pixel_member(deref_option(object), key@),
{
    match member_u64(object, key) {
        Some(value) => (value % 0x1_0000_0000) as u32,
        None => 0,
    }
}

/// The video stream that a document reports.
pub fn find_video_stream(document: &Json) -> (stream: Option<&Json>)
    ensures
        deref_option(stream) == video_stream(*document),
{
    let items = match document.get("streams") {
        Some(streams) => match streams.as_array() {
            Some(items) => items,
            None => {
                return None;
            },
        },
        None => {
            return None;
        },
    };
    let mut i: usize = 0;
    while i < items.len()
        invariant
            i <= items.len(),
            video_stream(*document) == first_video(items@),
            forall|j: int| 0 <= j < i ==> !is_video(#[trigger] items@[j]),
        decreases items.len() - i,
    {
        let declared = member_text(Some(&items[i]), "codec_type");
        let video = match declared {
            Some(kind) => same_text(kind, "video"),
            None => false,
        };
        if video {
            proof {
                first_video_skips(items@, i as int);
                let rest = items@.subrange(i as int, items.len() as int);
                assert(rest[0] == items@[i as int]);
            }
            return Some(&items[i]);
        }
        i += 1;
    }
    proof {
        first_video_skips(items@, items.len() as int);
    }
    None
}

/// Whether a nominal rate is degenerate.
pub fn nominal_needs_fix(nominal: &str) -> (needed: bool)
    ensures
        needed == nominal_degenerate(nominal@),
{
    same_text(nominal, "1000/1") || same_text(nominal, "0/0")
}

/// Whether an average rate is degenerate.
pub fn average_needs_fix(average: &str) -> (needed: bool)
    ensures
        needed == average_degenerate(average@),
{
    same_text(average, "0/0")
}

/// Whether the declared rates ask for a constant frame rate to be forced.
pub fn rates_need_fix(nominal: &str, average: &str) -> (needed: bool)
    ensures
        needed == rates_degenerate(nominal@, average@),
{
    nominal_needs_fix(nominal) || average_needs_fix(average)
}

/// Whether the rates that a stream declares, each where it declares it, ask
/// for a constant frame rate to be forced.
pub fn declared_rates_need_fix(nominal: Option<&str>, average: Option<&str>) -> (needed: bool)
    ensures
        needed == stream_needs_fix(optional_text(nominal), optional_text(average)),
{
    match (nominal, average) {
        (Some(nominal), Some(average)) => rates_need_fix(nominal, average),
        (Some(nominal), None) => nominal_needs_fix(nominal),
        (None, Some(average)) => average_needs_fix(average),
        (None, None) => false,
    }
}

/// What the output of the probing tool says of the file. Where the tool
/// could not be launched, or printed what is no JSON text, nothing is
/// known of the file.
pub open spec fn probed_facts(output: Option<Seq<u8>>) -> ProbeFacts {
    match output {
        Some(bytes) => match parsed_document(bytes) {
            Some(document) => probe_facts(document),
            None => unknown_facts(),
        },
        None => unknown_facts(),
    }
}

/// The bytes of an optional run of bytes.
pub open spec fn held_bytes(bytes: Option<Vec<u8>>) -> Option<Seq<u8>> {
    match bytes {
        Some(held) => Some(held@),
        None => None,
    }
}

impl ProbeReport {
    /// A second report that says the same.
    pub fn duplicate(&self) -> (copy: ProbeReport)
        ensures
            copy@ == self@,
    {
        ProbeReport {
            duration: match &self.duration {
                Some(text) => Some(text.clone()),
                None => None,
            },
            size_bytes: self.size_bytes,
            bitrate: self.bitrate,
            width: self.width,
            height: self.height,
            frame_rate: match &self.frame_rate {
                Some((numerator, denominator)) => Some((numerator.clone(), denominator.clone())),
                None => None,
            },
            needs_vfr_fix: self.needs_vfr_fix,
        }
    }

    /// The report of a file of which nothing is known.
    pub fn unknown() -> (report: ProbeReport)
        ensures
            report@ == unknown_facts(),
    {
        ProbeReport {
            duration: None,
            size_bytes: 0,
            bitrate: 0,
            width: 0,
            height: 0,
            frame_rate: None,
            needs_vfr_fix: false,
        }
    }
}

impl VideoInfo {
    /// A second record that says the same.
    pub fn duplicate(&self) -> (copy: VideoInfo)
        ensures
            copy@ == self@,
    {
        VideoInfo {
            path: self.path.clone(),
            report: self.report.duplicate(),
            gpu_info: self.gpu_info.clone(),
            processing_mode: self.processing_mode.clone(),
        }
    }
}

impl FFmpegUtils {
    /// What is shown of the file `path`. `output` is what the probing tool
    /// printed and `listing` what the encoding tool lists as its encoders;
    /// `None` stands for a tool that could not be launched. This never
    /// fails: what cannot be read is reported as unknown.
    pub fn get_video_info(
        &self,
        path: &str,
        output: &Option<Vec<u8>>,
        listing: Option<&str>,
    ) -> (info: VideoInfo)
        ensures
            info@ == video_info(path@, held_bytes(*output), optional_text(listing)),
    {
        let report = FFmpegUtils::read_probe_output(output);
        let gpu_info = self.get_gpu_info(listing);
        let processing_mode = if self.is_gpu_available(listing) {
            String::from_str("GPU")
        } else {
            String::from_str("CPU")
        };
        VideoInfo { path: String::from_str(path), report, gpu_info, processing_mode }
    }

    /// Reads what the probing tool printed; `None` stands for a tool that
    /// could not be launched. This never fails: what cannot be read is
    /// reported as unknown.
    pub fn read_probe_output(output: &Option<Vec<u8>>) -> (report: ProbeReport)
        ensures
            report@ == probed_facts(held_bytes(*output)),
    {
        match output {
            Some(bytes) => match parse_document(bytes.as_slice()) {
                Some(document) => FFmpegUtils::parse_video_info(&document),
                None => ProbeReport::unknown(),
            },
            None => ProbeReport::unknown(),
        }
    }

    /// Reads a parsed report of the probing tool.
    pub fn parse_video_info(document: &Json) -> (report: ProbeReport)
        ensures
            report@ == probe_facts(*document),
    {
        let format = document.get("format");
        let stream = find_video_stream(document);
        let duration = match member_text(format, "duration") {
            Some(text) => Some(String::from_str(text)),
            None => None,
        };
        let size_bytes = member_count(format, "size");
        let bitrate = member_count(format, "bit_rate");
        let width = member_pixels(stream, "width");
        let height = member_pixels(stream, "height");
        let nominal = member_text(stream, "r_frame_rate");
        let average = member_text(stream, "avg_frame_rate");
        let needs_vfr_fix = declared_rates_need_fix(nominal, average);
        let frame_rate = match average {
            Some(text) => split_once(text, '/'),
            None => None,
        };
        let report = ProbeReport {
            duration,
            size_bytes,
            bitrate,
            width,
            height,
            frame_rate,
            needs_vfr_fix,
        };
        assert(report@.frame_rate == probe_facts(*document).frame_rate);
        assert(report@ == probe_facts(*document));
        report
    }
}

} // verus!
