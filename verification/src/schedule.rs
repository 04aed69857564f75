use vstd::prelude::*;
use vstd::string::*;
use crate::input::DataPoint;
use crate::text::{decimal, push_decimal};
use crate::units::{push_three_decimals, rounded_div, three_decimals};

verus! {

/// How the frames of a run are timed.
#[derive(Clone, Copy, Debug, PartialEq, Eq, Structural)]
pub enum RatePolicy {
    /// A fixed rate, in frames per thousand seconds: each frame is repeated
    /// to fill the time it is held.
    Fixed(u32),
    /// Each frame appears once and carries the time it is held.
    Variable,
}

/// For how long a frame is shown.
#[derive(Clone, Copy, Debug, PartialEq, Eq, Structural)]
pub enum Hold {
    /// So many times in a row, at a fixed rate.
    Repeat(u64),
    /// For so many milliseconds.
    Duration(u32),
}

/// The frame of one sample and for how long it is shown.
#[derive(Clone, Copy, Debug, PartialEq, Eq, Structural)]
pub struct FrameInstruction {
    /// The position of the sample in the run.
    pub frame: usize,
    pub hold: Hold,
}

/// The time a frame is held: the sample's duration, cut at the longest gap
/// allowed. Both are in milliseconds.
pub open spec fn hold_duration(duration: u32, max_gap: u32) -> u32 {
    if duration <= max_gap {
        duration
    } else {
        max_gap
    }
}

/// The number of times a frame held for `hold` milliseconds is repeated at
/// `rate` frames per thousand seconds: the time times the rate, rounded to
/// the nearest whole number, a half going up.
pub open spec fn repeat_count(hold: u32, rate: u32) -> int {
    rounded_div(hold * rate, 1_000_000)
}

/// The instruction for the sample at position `i`.
pub open spec fn instruction(i: int, point: DataPoint, max_gap: u32, policy: RatePolicy)
    -> FrameInstruction {
    let hold = hold_duration(point.duration, max_gap);
    FrameInstruction {
        frame: i as usize,
        hold: match policy {
            RatePolicy::Fixed(rate) => Hold::Repeat(repeat_count(hold, rate) as u64),
            RatePolicy::Variable => Hold::Duration(hold),
        },
    }
}

/// The instructions for the first `count` samples of a run, in their order.
pub open spec fn instructions(
    points: Seq<DataPoint>,
    max_gap: u32,
    policy: RatePolicy,
    count: nat,
) -> Seq<FrameInstruction> {
    Seq::new(count, |i: int| instruction(i, points[i], max_gap, policy))
}

/// Caps the duration of a sample at the longest gap allowed.
pub fn hold_of(point: &DataPoint, max_gap: u32) -> (hold: u32)
    ensures
        hold == hold_duration(point.duration, max_gap),
{
    if point.duration <= max_gap {
        point.duration
    } else {
        max_gap
    }
}

/// The number of repeats that fill `hold` milliseconds at `rate` frames per
/// thousand seconds.
pub fn repeats(hold: u32, rate: u32) -> (count: u64)
    ensures
        count == repeat_count(hold, rate),
{
    let h: u128 = hold as u128;
    let r: u128 = rate as u128;
    assert(0 <= h * r <= 0xffff_ffff_0000_0000) by (nonlinear_arith)
        requires
            0 <= h <= 0xffff_ffff,
            0 <= r <= 0xffff_ffff,
    ;
    ((2 * (h * r) + 1_000_000) / 2_000_000) as u64
}

/// Turns the durations of the samples of a run into what to do with the
/// frame of each: one instruction for each sample, in the order of the
/// samples. A frame whose time at a fixed rate rounds to no repeat is
/// dropped from the video by that.
pub fn schedule(points: &Vec<DataPoint>, max_gap: u32, policy: RatePolicy) -> (res: Vec<
    FrameInstruction,
>)
    ensures
        res@ == instructions(points@, max_gap, policy, points@.len()),
{
    let mut res: Vec<FrameInstruction> = Vec::new();
    let mut i: usize = 0;
    while i < points.len()
        invariant
            i <= points.len(),
            res@ == instructions(points@, max_gap, policy, i as nat),
        decreases points.len() - i,
    {
        let hold = hold_of(&points[i], max_gap);
        let what = match policy {
            RatePolicy::Fixed(rate) => Hold::Repeat(repeats(hold, rate)),
            RatePolicy::Variable => Hold::Duration(hold),
        };
        res.push(FrameInstruction { frame: i, hold: what });
        i = i + 1;
    }
    res
}

/// The name of the still image of the frame at position `index`.
pub open spec fn frame_name(index: nat) -> Seq<char> {
    "frame_"@ + decimal(index) + ".png"@
}

/// The name of the still image of the frame at position `index`.
pub fn frame_file_name(index: usize) -> (name: String)
    ensures
        name@ == frame_name(index as nat),
{
    let mut name = String::from_str("frame_");
    push_decimal(&mut name, index as u64);
    name.append(".png");
    name
}

/// One entry of a manifest: a frame and for how many milliseconds it is
/// shown.
#[derive(Clone, Copy, Debug, PartialEq, Eq, Structural)]
pub struct ManifestEntry {
    pub frame: usize,
    pub duration: u32,
}

/// The entries for the first `count` frames, in playback order.
pub open spec fn listed(durations: Seq<u32>, count: nat) -> Seq<ManifestEntry> {
    Seq::new(count, |i: int| ManifestEntry { frame: i as usize, duration: durations[i] })
}

/// The entries of the manifest of a run: one for each frame in playback
/// order, and the entry of the last frame once more, since the encoder
/// passes over the time of the entry it reads last. A run without frames
/// has no entries.
pub open spec fn manifest_of(durations: Seq<u32>) -> Seq<ManifestEntry> {
    let frames = listed(durations, durations.len());
    if durations.len() == 0 {
        frames
    } else {
        frames.push(frames.last())
    }
}

/// The two lines of an entry: the file of its frame, and the time in
/// seconds.
pub open spec fn entry_lines(entry: ManifestEntry) -> Seq<char> {
    "file '"@ + frame_name(entry.frame as nat) + "'\n"@ + "duration "@ + three_decimals(
        entry.duration as nat,
    ) + "\n"@
}

/// The text of a manifest: the lines of its entries, in order.
pub open spec fn manifest_lines(entries: Seq<ManifestEntry>) -> Seq<char>
    decreases entries.len(),
{
    if entries.len() == 0 {
        Seq::empty()
    } else {
        manifest_lines(entries.drop_last()) + entry_lines(entries.last())
    }
}

/// Lists the entries of the manifest for frames that are held for the
/// given times, in milliseconds.
pub fn manifest_entries(durations: &Vec<u32>) -> (entries: Vec<ManifestEntry>)
    ensures
        entries@ == manifest_of(durations@),
{
    let mut entries: Vec<ManifestEntry> = Vec::new();
    let n = durations.len();
    let mut i: usize = 0;
    while i < n
        invariant
            i <= n,
            n == durations.len(),
            entries@ == listed(durations@, i as nat),
        decreases n - i,
    {
        entries.push(ManifestEntry { frame: i, duration: durations[i] });
        i = i + 1;
    }
    if n > 0 {
        let last = entries[n - 1];
        entries.push(last);
    }
    entries
}

/// Writes the entries of a manifest as the encoder reads them.
pub fn manifest_text(entries: &Vec<ManifestEntry>) -> (res: String)
    ensures
        res@ == manifest_lines(entries@),
{
    let mut out = String::new();
    let mut i: usize = 0;
    while i < entries.len()
        invariant
            i <= entries.len(),
            out@ == manifest_lines(entries@.take(i as int)),
        decreases entries.len() - i,
    {
        let entry = entries[i];
        out.append("file '");
        out.append(frame_file_name(entry.frame).as_str());
        out.append("'\n");
        out.append("duration ");
        push_three_decimals(&mut out, entry.duration as u64);
        out.append("\n");
        assert(entries@.take(i + 1).drop_last() =~= entries@.take(i as int));
        i = i + 1;
    }
    assert(entries@.take(i as int) =~= entries@);
    out
}

/// Writes the manifest for frames that are held for the given times, in
/// milliseconds.
pub fn manifest(durations: &Vec<u32>) -> (res: String)
    ensures
        res@ == manifest_lines(manifest_of(durations@)),
{
    let entries = manifest_entries(durations);
    manifest_text(&entries)
}

/// The manifest of a run with frames has one entry more than the run has
/// frames: the frames in playback order, each with its time, and then the
/// last of them again.
pub proof fn manifest_lists_last_frame_twice(durations: Seq<u32>, i: int)
    requires
        0 <= i < durations.len(),
        durations.len() <= usize::MAX,
    ensures
        manifest_of(durations).len() == durations.len() + 1,
        manifest_of(durations)[i] == (ManifestEntry { frame: i as usize, duration: durations[i] }),
        manifest_of(durations)[durations.len() as int] == manifest_of(durations)[durations.len()
            - 1],
{
}

/// The times for which the frames of a run are held, in milliseconds and
/// in the order of the samples.
pub fn hold_durations(points: &Vec<DataPoint>, max_gap: u32) -> (res: Vec<u32>)
    ensures
        res@ == Seq::new(points@.len(), |i: int| hold_duration(points@[i].duration, max_gap)),
{
    let mut res: Vec<u32> = Vec::new();
    let mut i: usize = 0;
    while i < points.len()
        invariant
            i <= points.len(),
            res@ == Seq::new(i as nat, |k: int| hold_duration(points@[k].duration, max_gap)),
        decreases points.len() - i,
    {
        res.push(hold_of(&points[i], max_gap));
        i = i + 1;
        assert(res@ =~= Seq::new(
            i as nat,
            |k: int| hold_duration(points@[k].duration, max_gap),
        ));
    }
    res
}

} // verus!
