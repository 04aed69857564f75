//! Turns the log of a ride into the frames of a video: dials and readings
//! for each sample, held for as long as the sample lasted.
//!
//! All numbers are whole: readings count thousandths of their unit, times
//! count milliseconds, and angles are fractions of a half turn.

/// The command line: its switches, and the settings they add up to.
pub mod cli;
/// What a frame is drawn from.
pub mod element;
/// The arguments that the encoder is started with.
pub mod encoder;
/// Colours, points and angles.
pub mod geometry;
/// Samples, and how the rows of a log become them.
pub mod input;
/// Reading numerals.
pub mod number;
/// Texts, rows, titles and sections.
pub mod render;
/// The plan of a whole run.
pub mod run;
/// The layout of a frame.
pub mod scene;
/// For how long each frame is shown, and the manifest that says so.
pub mod schedule;
/// The dial.
pub mod speedo;
/// Frames as vector graphics documents.
pub mod svg;
/// Writing numerals and comparing texts.
pub mod text;
/// Rounding, and writing numbers with decimals.
pub mod units;
