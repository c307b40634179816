//! Log verbosity levels and their numeric ranks.

use vstd::prelude::*;

verus! {

/// Verbosity of the log sink, from silent to most verbose.
///
/// `Off` disables the sink entirely; every other level admits messages of
/// that severity and of every more severe one.
#[derive(Clone, Copy, PartialEq, Eq, Structural, Debug)]
pub enum LevelFilter {
    Off,
    Error,
    Warn,
    Info,
    Debug,
    Trace,
}

/// Numeric rank of a verbosity level: 0 for `Off`, rising with verbosity.
pub open spec fn level_rank(level: LevelFilter) -> nat {
    match level {
        LevelFilter::Off => 0,
        LevelFilter::Error => 1,
        LevelFilter::Warn => 2,
        LevelFilter::Info => 3,
        LevelFilter::Debug => 4,
        LevelFilter::Trace => 5,
    }
}

/// Converts a verbosity level to its numeric rank, the form the sink's
/// filtering compares on.
pub fn convert_level(level: LevelFilter) -> (r: u8)
    ensures
        r == level_rank(level),
{
    match level {
        LevelFilter::Off => 0,
        LevelFilter::Error => 1,
        LevelFilter::Warn => 2,
        LevelFilter::Info => 3,
        LevelFilter::Debug => 4,
        LevelFilter::Trace => 5,
    }
}

/// Whether a message at `level` passes a sink whose ceiling is `max`.
///
/// `Off` messages never pass; otherwise a message passes when it is no more
/// verbose than the ceiling.
pub open spec fn level_enabled(level: LevelFilter, max: LevelFilter) -> bool {
    level != LevelFilter::Off && level_rank(level) <= level_rank(max)
}

} // verus!
