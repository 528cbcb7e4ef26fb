//! Which diagnostics are shown, and how a diagnostic line reads.

use crate::options::Args;
use vstd::prelude::*;
use vstd::string::StringExecFns;

verus! {

/// How serious a diagnostic is, the most serious first.
#[derive(Clone, Copy, Debug, PartialEq, Eq, Structural)]
pub enum Level {
    Error,
    Warn,
    Info,
    Debug,
    Trace,
}

/// The least serious level of diagnostics that is still shown.
#[derive(Clone, Copy, Debug, PartialEq, Eq, Structural)]
pub enum LevelFilter {
    /// Nothing is shown.
    Off,
    /// Errors only.
    Error,
    /// Errors and warnings.
    Warn,
    /// Errors, warnings and informational messages.
    Info,
}

/// The filter that the verbosity switches select. Warnings and errors are
/// shown by default, `verbose` adds informational messages, and `silent`
/// overrides it: nothing is shown then, unless `show_error` keeps the errors.
pub open spec fn level_for(verbose: bool, silent: bool, show_error: bool) -> LevelFilter {
    if silent {
        if show_error {
            LevelFilter::Error
        } else {
            LevelFilter::Off
        }
    } else if verbose {
        LevelFilter::Info
    } else {
        LevelFilter::Warn
    }
}

/// Whether the logger takes diagnostics of this level at all: errors,
/// warnings and informational messages, nothing below.
pub open spec fn takes(level: Level) -> bool {
    level == Level::Error || level == Level::Warn || level == Level::Info
}

/// Whether a diagnostic of `level` passes `filter`.
pub open spec fn passes(filter: LevelFilter, level: Level) -> bool {
    match filter {
        LevelFilter::Off => false,
        LevelFilter::Error => level == Level::Error,
        LevelFilter::Warn => level == Level::Error || level == Level::Warn,
        LevelFilter::Info => takes(level),
    }
}

/// The name of a level as it stands at the start of a diagnostic line.
pub open spec fn level_name(level: Level) -> Seq<char> {
    match level {
        Level::Error => "error"@,
        Level::Warn => "warn"@,
        Level::Info => "info"@,
        Level::Debug => "debug"@,
        Level::Trace => "trace"@,
    }
}

/// `log::set_max_level`: makes `level` the process-wide ceiling of the `log`
/// crate's macros. It returns nothing, and nothing is claimed of it.
#[verifier::external_body]
fn set_max_level(level: LevelFilter) {
    log::set_max_level(
        match level {
            LevelFilter::Off => log::LevelFilter::Off,
            LevelFilter::Error => log::LevelFilter::Error,
            LevelFilter::Warn => log::LevelFilter::Warn,
            LevelFilter::Info => log::LevelFilter::Info,
        },
    )
}

/// Selects the filter that the options ask for, makes it the process-wide
/// ceiling for diagnostics, and returns it.
pub fn init_logger(args: &Args) -> (level: LevelFilter)
    ensures
        level == level_for(args.verbose, args.silent, args.show_error),
{
    let mut level = LevelFilter::Warn;
    if args.verbose {
        level = LevelFilter::Info;
    }
    if args.silent {
        level = LevelFilter::Off;
        if args.show_error {
            level = LevelFilter::Error;
        }
    }
    set_max_level(level);
    level
}

/// Whether the logger takes diagnostics of this level at all.
pub fn enabled(level: Level) -> (r: bool)
    ensures
        r == takes(level),
{
    match level {
        Level::Error | Level::Warn | Level::Info => true,
        Level::Debug | Level::Trace => false,
    }
}

/// Whether a diagnostic of `level` is shown under `filter`.
pub fn shown(filter: LevelFilter, level: Level) -> (r: bool)
    ensures
        r == passes(filter, level),
{
    match filter {
        LevelFilter::Off => false,
        LevelFilter::Error => match level {
            Level::Error => true,
            _ => false,
        },
        LevelFilter::Warn => match level {
            Level::Error | Level::Warn => true,
            _ => false,
        },
        LevelFilter::Info => enabled(level),
    }
}

/// A diagnostic line: the level's name in lower case, a colon, a space and
/// the message.
pub fn log_line(level: Level, message: &str) -> (line: String)
    ensures
        line@ == level_name(level) + ": "@ + message@,
{
    let name = match level {
        Level::Error => "error",
        Level::Warn => "warn",
        Level::Info => "info",
        Level::Debug => "debug",
        Level::Trace => "trace",
    };
    let mut line = String::from_str(name);
    line.append(": ");
    line.append(message);
    line
}

/// No switch shows less than `silent` does, and `show_error` never hides an
/// error.
pub proof fn lemma_silence_wins(verbose: bool, show_error: bool, level: Level)
    ensures
        passes(level_for(verbose, true, show_error), level) == (show_error && level
            == Level::Error),
        passes(level_for(verbose, false, show_error), Level::Error),
{
}

} // verus!
