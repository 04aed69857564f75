use vstd::prelude::*;
use vstd::string::*;
use crate::text::{decimal, digit_char, digit_str, push_decimal};
use crate::units::{div_round, push_three_decimals, push_two_decimals, rounded_div, three_decimals, two_decimals};

verus! {

/// The texts of a sequence of arguments, in order.
pub open spec fn arg_views(args: Seq<String>) -> Seq<Seq<char>> {
    args.map_values(|a: String| a@)
}

fn push_arg(args: &mut Vec<String>, text: &str)
    ensures
        arg_views(final(args)@) == arg_views(old(args)@).push(text@),
{
    args.push(String::from_str(text));
}

fn push_owned(args: &mut Vec<String>, text: String)
    ensures
        arg_views(final(args)@) == arg_views(old(args)@).push(text@),
{
    args.push(text);
}

/// A count of thousandths written as briefly as it can be: no decimals for
/// a whole number, else as many as are not zero, up to three.
pub open spec fn brief_decimals(thousandths: nat) -> Seq<char> {
    let whole = decimal(thousandths / 1000);
    let tenths = digit_char(((thousandths / 100) % 10) as int);
    let hundredths = digit_char(((thousandths / 10) % 10) as int);
    if thousandths % 1000 == 0 {
        whole
    } else if thousandths % 100 == 0 {
        whole + seq!['.', tenths]
    } else if thousandths % 10 == 0 {
        whole + seq!['.', tenths, hundredths]
    } else {
        three_decimals(thousandths)
    }
}

/// Writes a count of thousandths as briefly as it can be.
pub fn format_brief(thousandths: u32) -> (res: String)
    ensures
        res@ == brief_decimals(thousandths as nat),
{
    let mut out = String::new();
    if thousandths % 10 != 0 {
        push_three_decimals(&mut out, thousandths as u64);
        return out;
    }
    proof {
        reveal_strlit(".");
    }
    push_decimal(&mut out, (thousandths / 1000) as u64);
    if thousandths % 1000 != 0 {
        out.append(".");
        out.append(digit_str(((thousandths / 100) % 10) as u8));
        if thousandths % 100 != 0 {
            out.append(digit_str(((thousandths / 10) % 10) as u8));
        }
    }
    out
}

/// The size of a frame as the encoder reads it: width, `x`, height.
pub open spec fn video_size(width: u32, height: u32) -> Seq<char> {
    decimal(width as nat) + "x"@ + decimal(height as nat)
}

/// The filter that resizes the video by `scale` thousandths, written with
/// two decimals.
pub open spec fn scale_filter(scale: u32) -> Seq<char> {
    let factor = two_decimals(rounded_div(scale as int, 10));
    "scale="@ + factor + "*iw:"@ + factor + "*ih:flags=lanczos"@
}

/// How the encoder takes raw frames in.
pub open spec fn stream_input(transparent: bool, width: u32, height: u32, rate: u32) -> Seq<
    Seq<char>,
> {
    seq![
        "-y"@,
        "-f"@,
        "rawvideo"@,
        "-pixel_format"@,
        if transparent {
            "argb"@
        } else {
            "yuv420p"@
        },
        "-video_size"@,
        video_size(width, height),
        "-framerate"@,
        brief_decimals(rate as nat),
        "-i"@,
        "-"@,
    ]
}

/// What the encoder makes of the frames: with a transparent background a
/// lossless run-length codec that keeps the alpha channel, in a QuickTime
/// file; else H.264 at a fixed quality, in an MP4 file.
pub open spec fn stream_codec(transparent: bool) -> Seq<Seq<char>> {
    if transparent {
        seq!["-c:v"@, "qtrle"@, "-f"@, "mov"@]
    } else {
        seq!["-c:v"@, "libx264"@, "-preset"@, "fast"@, "-crf"@, "23"@, "-f"@, "mp4"@]
    }
}

/// The resize filter, unless the scale is one.
pub open spec fn stream_resize(scale: u32) -> Seq<Seq<char>> {
    if scale != 1000 {
        seq!["-vf"@, scale_filter(scale)]
    } else {
        Seq::empty()
    }
}

/// The arguments of the encoder that reads raw frames from its standard
/// input: how to take them in, what to make of them, the resize filter if
/// there is one, and where to write.
pub open spec fn stream_arguments(
    transparent: bool,
    width: u32,
    height: u32,
    rate: u32,
    scale: u32,
    output: Seq<char>,
) -> Seq<Seq<char>> {
    stream_input(transparent, width, height, rate) + stream_codec(transparent) + stream_resize(
        scale,
    ) + seq![output]
}

/// Builds the arguments of the encoder that reads raw frames of `width`
/// by `height` pixels from its standard input, at `rate` frames per
/// thousand seconds, and resizes them by `scale` thousandths.
pub fn stream_command(
    transparent: bool,
    width: u32,
    height: u32,
    rate: u32,
    scale: u32,
    output: &str,
) -> (args: Vec<String>)
    ensures
        arg_views(args@) == stream_arguments(transparent, width, height, rate, scale, output@),
{
    let mut args: Vec<String> = Vec::new();
    push_arg(&mut args, "-y");
    push_arg(&mut args, "-f");
    push_arg(&mut args, "rawvideo");
    push_arg(&mut args, "-pixel_format");
    push_arg(&mut args, if transparent { "argb" } else { "yuv420p" });
    push_arg(&mut args, "-video_size");
    let mut size = String::new();
    push_decimal(&mut size, width as u64);
    size.append("x");
    push_decimal(&mut size, height as u64);
    push_owned(&mut args, size);
    push_arg(&mut args, "-framerate");
    push_owned(&mut args, format_brief(rate));
    push_arg(&mut args, "-i");
    push_arg(&mut args, "-");
    push_arg(&mut args, "-c:v");
    if transparent {
        push_arg(&mut args, "qtrle");
    } else {
        push_arg(&mut args, "libx264");
        push_arg(&mut args, "-preset");
        push_arg(&mut args, "fast");
        push_arg(&mut args, "-crf");
        push_arg(&mut args, "23");
    }
    push_arg(&mut args, "-f");
    push_arg(&mut args, if transparent { "mov" } else { "mp4" });
    assert(arg_views(args@) =~= stream_input(transparent, width, height, rate) + stream_codec(
        transparent,
    ));
    if scale != 1000 {
        push_arg(&mut args, "-vf");
        let mut filter = String::from_str("scale=");
        let factor = div_round(scale as i64, 10);
        push_two_decimals(&mut filter, factor);
        filter.append("*iw:");
        push_two_decimals(&mut filter, factor);
        filter.append("*ih:flags=lanczos");
        push_owned(&mut args, filter);
    }
    push_arg(&mut args, output);
    assert(arg_views(args@) =~= stream_arguments(
        transparent,
        width,
        height,
        rate,
        scale,
        output@,
    ));
    args
}

/// How the encoder times the images of a manifest: at a fixed rate if
/// there is one, else by the times the manifest states.
pub open spec fn sequence_timing(rate: Option<u32>) -> Seq<Seq<char>> {
    match rate {
        Some(r) => seq!["-r"@, brief_decimals(r as nat)],
        None => seq!["-vsync"@, "vfr"@],
    }
}

/// The arguments of the encoder that reads still images as a manifest
/// lists them, and writes a lossless video that keeps the alpha channel.
pub open spec fn sequence_arguments(manifest: Seq<char>, rate: Option<u32>, output: Seq<char>)
    -> Seq<Seq<char>> {
    seq!["-y"@, "-f"@, "concat"@, "-safe"@, "0"@, "-i"@, manifest] + sequence_timing(rate) + seq![
        "-c:v"@,
        "qtrle"@,
        "-f"@,
        "mov"@,
        output,
    ]
}

/// Builds the arguments of the encoder that reads the still images listed
/// in the manifest at the path `manifest`.
pub fn sequence_command(manifest: &str, rate: Option<u32>, output: &str) -> (args: Vec<String>)
    ensures
        arg_views(args@) == sequence_arguments(manifest@, rate, output@),
{
    let mut args: Vec<String> = Vec::new();
    push_arg(&mut args, "-y");
    push_arg(&mut args, "-f");
    push_arg(&mut args, "concat");
    push_arg(&mut args, "-safe");
    push_arg(&mut args, "0");
    push_arg(&mut args, "-i");
    push_arg(&mut args, manifest);
    match rate {
        Some(r) => {
            push_arg(&mut args, "-r");
            push_owned(&mut args, format_brief(r));
        },
        None => {
            push_arg(&mut args, "-vsync");
            push_arg(&mut args, "vfr");
        },
    }
    push_arg(&mut args, "-c:v");
    push_arg(&mut args, "qtrle");
    push_arg(&mut args, "-f");
    push_arg(&mut args, "mov");
    push_arg(&mut args, output);
    args
}

} // verus!
