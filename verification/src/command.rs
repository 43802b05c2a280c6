//! The argument lists with which the two tools are called.

use vstd::prelude::*;
use vstd::string::*;
use crate::config::OutputFormat;
use crate::encoders::{family_of, HardwareEncoder, Vendor};
use crate::text::{decimal, decimal_digits};

verus! {

/// The characters of each text of a list.
pub open spec fn texts(list: Seq<String>) -> Seq<Seq<char>> {
    list.map_values(|text: String| text@)
}

/// Appends `text` to `list`.
pub fn push_text(list: &mut Vec<String>, text: &str)
    ensures
        texts(final(list)@) == texts(old(list)@).push(text@),
{
    let owned = String::from_str(text);
    list.push(owned);
    assert(texts(list@) =~= texts(old(list)@).push(text@));
}

/// Arguments of the probing tool: quiet, a report in JSON of the container
/// and of every stream, for the one file `path`.
pub open spec fn probe_arguments(path: Seq<char>) -> Seq<Seq<char>> {
    seq![
        "-v"@,
        "quiet"@,
        "-print_format"@,
        "json"@,
        "-show_format"@,
        "-show_streams"@,
        path,
    ]
}

/// The one argument that makes the encoding tool list its encoders.
pub open spec fn listing_arguments() -> Seq<Seq<char>> {
    seq!["-encoders"@]
}

/// Arguments of the normalization pass: overwrite, read `input`, force 25
/// frames per second, encode with `libx264` at quality 18, copy the audio,
/// write `output`.
pub open spec fn normalize_arguments(input: Seq<char>, output: Seq<char>) -> Seq<Seq<char>> {
    seq![
        "-y"@,
        "-i"@,
        input,
        "-vf"@,
        "fps=25"@,
        "-c:v"@,
        "libx264"@,
        "-crf"@,
        "18"@,
        "-preset"@,
        "medium"@,
        "-c:a"@,
        "copy"@,
        output,
    ]
}

/// The encoder of the encode pass: on the hardware of `vendor` the
/// hardware encoder of that vendor for the codec family of the profile,
/// else the software encoder of the profile.
pub open spec fn video_encoder(format: OutputFormat, vendor: Option<Vendor>) -> Seq<char> {
    match vendor {
        Some(vendor) => (HardwareEncoder { vendor, family: family_of(format) }).spec_name(),
        None => format.spec_codec(),
    }
}

/// The video part of the encode pass.
pub open spec fn video_arguments(
    format: OutputFormat,
    crf: u8,
    vendor: Option<Vendor>,
) -> Seq<Seq<char>> {
    let encoder = video_encoder(format, vendor);
    let quality = decimal_digits(crf as nat);
    if format == OutputFormat::WebM {
        if vendor.is_some() {
            seq!["-c:v"@, encoder, "-crf"@, quality, "-b:v"@, "0"@, "-rc"@, "vbr"@]
        } else {
            seq![
                "-c:v"@,
                encoder,
                "-crf"@,
                quality,
                "-b:v"@,
                "0"@,
                "-deadline"@,
                "good"@,
                "-cpu-used"@,
                "2"@,
            ]
        }
    } else {
        let encoding = if vendor.is_some() {
            seq!["-c:v"@, encoder, "-crf"@, quality, "-preset"@, "medium"@, "-tune"@, "ll"@]
        } else {
            seq![
                "-c:v"@,
                encoder,
                "-crf"@,
                quality,
                "-preset"@,
                "medium"@,
                "-pix_fmt"@,
                "yuv420p"@,
                "-vf"@,
                "pad=ceil(iw/2)*2:ceil(ih/2)*2"@,
            ]
        };
        if format == OutputFormat::MP4 {
            encoding + seq!["-movflags"@, "+faststart"@]
        } else {
            encoding
        }
    }
}

/// The audio part of the encode pass: the codec of the profile at 128 kbit/s.
pub open spec fn audio_arguments(format: OutputFormat) -> Seq<Seq<char>> {
    seq!["-c:a"@, format.spec_audio_codec(), "-b:a"@, "128k"@]
}

/// Arguments of the encode pass: overwrite, read `input`, the video part,
/// the audio part, write `output`.
pub open spec fn encode_arguments(
    input: Seq<char>,
    output: Seq<char>,
    format: OutputFormat,
    crf: u8,
    vendor: Option<Vendor>,
) -> Seq<Seq<char>> {
    seq!["-y"@, "-i"@, input] + video_arguments(format, crf, vendor) + audio_arguments(format)
        + seq![output]
}

/// Builds the arguments of the probing tool for the file `path`.
pub fn probe_command(path: &str) -> (args: Vec<String>)
    ensures
        texts(args@) == probe_arguments(path@),
{
    let mut args: Vec<String> = Vec::new();
    assert(texts(args@) =~= Seq::empty());
    push_text(&mut args, "-v");
    push_text(&mut args, "quiet");
    push_text(&mut args, "-print_format");
    push_text(&mut args, "json");
    push_text(&mut args, "-show_format");
    push_text(&mut args, "-show_streams");
    push_text(&mut args, path);
    assert(texts(args@) =~= probe_arguments(path@));
    args
}

/// Builds the arguments that make the encoding tool list its encoders.
pub fn listing_command() -> (args: Vec<String>)
    ensures
        texts(args@) == listing_arguments(),
{
    let mut args: Vec<String> = Vec::new();
    assert(texts(args@) =~= Seq::empty());
    push_text(&mut args, "-encoders");
    assert(texts(args@) =~= listing_arguments());
    args
}

/// The name of the encoder of the encode pass.
pub fn encoder_name(format: OutputFormat, vendor: Option<Vendor>) -> (name: &'static str)
    ensures
        name@ == video_encoder(format, vendor),
{
    match vendor {
        Some(vendor) => (HardwareEncoder { vendor, family: format.family() }).name(),
        None => format.codec(),
    }
}

/// Appends the video part of the encode pass to `args`.
fn push_video(args: &mut Vec<String>, format: OutputFormat, crf: u8, vendor: Option<Vendor>)
    ensures
        texts(final(args)@) == texts(old(args)@) + video_arguments(format, crf, vendor),
{
    let quality = decimal(crf as u64);
    push_text(args, "-c:v");
    push_text(args, encoder_name(format, vendor));
    push_text(args, "-crf");
    push_text(args, quality.as_str());
    if format == OutputFormat::WebM {
        push_text(args, "-b:v");
        push_text(args, "0");
        if vendor.is_some() {
            push_text(args, "-rc");
            push_text(args, "vbr");
        } else {
            push_text(args, "-deadline");
            push_text(args, "good");
            push_text(args, "-cpu-used");
            push_text(args, "2");
        }
    } else {
        push_text(args, "-preset");
        push_text(args, "medium");
        if vendor.is_some() {
            push_text(args, "-tune");
            push_text(args, "ll");
        } else {
            push_text(args, "-pix_fmt");
            push_text(args, "yuv420p");
            push_text(args, "-vf");
            push_text(args, "pad=ceil(iw/2)*2:ceil(ih/2)*2");
        }
        if format == OutputFormat::MP4 {
            push_text(args, "-movflags");
            push_text(args, "+faststart");
        }
    }
    assert(texts(args@) =~= texts(old(args)@) + video_arguments(format, crf, vendor));
}

/// Appends the audio part of the encode pass to `args`.
fn push_audio(args: &mut Vec<String>, format: OutputFormat)
    ensures
        texts(final(args)@) == texts(old(args)@) + audio_arguments(format),
{
    push_text(args, "-c:a");
    push_text(args, format.audio_codec());
    push_text(args, "-b:a");
    push_text(args, "128k");
    assert(texts(args@) =~= texts(old(args)@) + audio_arguments(format));
}

/// Builds the arguments of the normalization pass.
pub fn normalize_command(input: &str, output: &str) -> (args: Vec<String>)
    ensures
        texts(args@) == normalize_arguments(input@, output@),
{
    let mut args: Vec<String> = Vec::new();
    assert(texts(args@) =~= Seq::empty());
    push_text(&mut args, "-y");
    push_text(&mut args, "-i");
    push_text(&mut args, input);
    push_text(&mut args, "-vf");
    push_text(&mut args, "fps=25");
    push_text(&mut args, "-c:v");
    push_text(&mut args, "libx264");
    push_text(&mut args, "-crf");
    push_text(&mut args, "18");
    push_text(&mut args, "-preset");
    push_text(&mut args, "medium");
    push_text(&mut args, "-c:a");
    push_text(&mut args, "copy");
    push_text(&mut args, output);
    assert(texts(args@) =~= normalize_arguments(input@, output@));
    args
}

/// Builds the arguments of the encode pass.
pub fn encode_command(
    input: &str,
    output: &str,
    format: OutputFormat,
    crf: u8,
    vendor: Option<Vendor>,
) -> (args: Vec<String>)
    ensures
        texts(args@) == encode_arguments(input@, output@, format, crf, vendor),
{
    let mut args: Vec<String> = Vec::new();
    assert(texts(args@) =~= Seq::empty());
    push_text(&mut args, "-y");
    push_text(&mut args, "-i");
    push_text(&mut args, input);
    assert(texts(args@) =~= seq!["-y"@, "-i"@, input@]);
    push_video(&mut args, format, crf, vendor);
    push_audio(&mut args, format);
    push_text(&mut args, output);
    assert(texts(args@) =~= encode_arguments(input@, output@, format, crf, vendor));
    args
}

} // verus!
