use vstd::prelude::*;
use vstd::string::*;
use crate::cli::{Args, ArgsView};
use crate::encoder::{arg_views, sequence_arguments, sequence_command, stream_arguments, stream_command};
use crate::input::DataPoint;
use crate::schedule::{
    hold_duration, hold_durations, instructions, manifest, manifest_lines, manifest_of, schedule,
    FrameInstruction, RatePolicy,
};

verus! {

/// Why a run fails as a whole.
#[derive(Clone, Copy, Debug, PartialEq, Eq, Structural)]
pub enum RunError {
    /// The log holds no sample.
    NoDataPoints,
    /// So many frames could not be drawn.
    FramesFailed(usize),
}

/// What to tell the user about a log without samples.
pub open spec fn no_data_points(input: Seq<char>) -> Seq<char> {
    "No data points found in input "@ + input
}

/// Writes what to tell the user about a log without samples.
pub fn no_data_points_message(input: &str) -> (res: String)
    ensures
        res@ == no_data_points(input@),
{
    let mut res = String::from_str("No data points found in input ");
    res.append(input);
    res
}

/// How a run produces its video.
#[derive(Clone, Debug, PartialEq, Eq)]
pub enum Plan {
    /// Raw frames go to the standard input of an encoder started with
    /// `command`, each as often as its instruction says.
    Stream { command: Vec<String>, frames: Vec<FrameInstruction> },
    /// Each frame is stored as a still image under the name the manifest
    /// gives it; then the manifest is stored and an encoder is started on
    /// it with `command`.
    Sequence { command: Vec<String>, manifest: String, frames: Vec<FrameInstruction> },
}

pub enum PlanView {
    Stream { command: Seq<Seq<char>>, frames: Seq<FrameInstruction> },
    Sequence { command: Seq<Seq<char>>, manifest: Seq<char>, frames: Seq<FrameInstruction> },
}

impl View for Plan {
    type V = PlanView;

    open spec fn view(&self) -> PlanView {
        match *self {
            Plan::Stream { command, frames } => PlanView::Stream {
                command: arg_views(command@),
                frames: frames@,
            },
            Plan::Sequence { command, manifest, frames } => PlanView::Sequence {
                command: arg_views(command@),
                manifest: manifest@,
                frames: frames@,
            },
        }
    }
}

/// The times for which the frames of a run are held, in the order of the
/// samples.
pub open spec fn holds(points: Seq<DataPoint>, max_gap: u32) -> Seq<u32> {
    Seq::new(points.len(), |i: int| hold_duration(points[i].duration, max_gap))
}

/// The plan of a run with samples. With a frame rate, frames are repeated
/// at that rate and streamed; without one, each frame is stored once and
/// the manifest states for how long it is held.
pub open spec fn plan_of(
    args: ArgsView,
    points: Seq<DataPoint>,
    width: u32,
    height: u32,
    manifest_path: Seq<char>,
) -> PlanView {
    match args.rate {
        Some(rate) => PlanView::Stream {
            command: stream_arguments(
                args.transparent_bg,
                width,
                height,
                rate,
                args.scale,
                args.output,
            ),
            frames: instructions(
                points,
                args.max_gap,
                RatePolicy::Fixed(rate),
                points.len(),
            ),
        },
        None => PlanView::Sequence {
            command: sequence_arguments(manifest_path, None, args.output),
            manifest: manifest_lines(manifest_of(holds(points, args.max_gap))),
            frames: instructions(
                points,
                args.max_gap,
                RatePolicy::Variable,
                points.len(),
            ),
        },
    }
}

/// Plans a run: what the encoder is started with and what happens to the
/// frame of each sample, for frames of `width` by `height` pixels and a
/// manifest stored at `manifest_path`. A log without samples is refused.
pub fn plan(
    args: &Args,
    points: &Vec<DataPoint>,
    width: u32,
    height: u32,
    manifest_path: &str,
) -> (res: Result<Plan, RunError>)
    ensures
        match res {
            Ok(p) => points@.len() > 0 && p@ == plan_of(
                args@,
                points@,
                width,
                height,
                manifest_path@,
            ),
            Err(e) => e == RunError::NoDataPoints && points@.len() == 0,
        },
{
    if points.len() == 0 {
        return Err(RunError::NoDataPoints);
    }
    match args.rate {
        Some(rate) => Ok(
            Plan::Stream {
                command: stream_command(
                    args.transparent_bg,
                    width,
                    height,
                    rate,
                    args.scale,
                    args.output.as_str(),
                ),
                frames: schedule(points, args.max_gap, RatePolicy::Fixed(rate)),
            },
        ),
        None => {
            let durations = hold_durations(points, args.max_gap);
            Ok(
                Plan::Sequence {
                    command: sequence_command(manifest_path, None, args.output.as_str()),
                    manifest: manifest(&durations),
                    frames: schedule(points, args.max_gap, RatePolicy::Variable),
                },
            )
        },
    }
}

/// Ends a run in which the frames at the given positions could not be
/// drawn: the run went on past each of them, and fails at its end if there
/// was any.
pub fn finish(failed: &Vec<usize>) -> (res: Result<(), RunError>)
    ensures
        res == (if failed@.len() == 0 {
            Ok::<(), RunError>(())
        } else {
            Err::<(), RunError>(RunError::FramesFailed(failed@.len() as usize))
        }),
{
    if failed.len() == 0 {
        Ok(())
    } else {
        Err(RunError::FramesFailed(failed.len()))
    }
}

} // verus!
