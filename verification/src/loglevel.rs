//! Log verbosity levels and their canonical names.

use vstd::prelude::*;

verus! {

/// The verbosity levels the run controller understands, ordered from the
/// chattiest to the quietest.
#[derive(Clone, Copy, PartialEq, Eq, Structural, Debug)]
pub enum LogLevel {
    Trace,
    Debug,
    Info,
    Warn,
    Error,
}

/// The canonical name of a verbosity level, as handed to the logging backend.
pub open spec fn loglevel_name(level: LogLevel) -> Seq<char> {
    match level {
        LogLevel::Trace => "Trace"@,
        LogLevel::Debug => "Debug"@,
        LogLevel::Info => "Info"@,
        LogLevel::Warn => "Warn"@,
        LogLevel::Error => "Error"@,
    }
}

/// Renders a verbosity level as its canonical name.
pub fn get_string_from_loglevel(val: LogLevel) -> (r: String)
    ensures
        r@ == loglevel_name(val),
{
    match val {
        LogLevel::Trace => String::from_str("Trace"),
        LogLevel::Debug => String::from_str("Debug"),
        LogLevel::Info => String::from_str("Info"),
        LogLevel::Warn => String::from_str("Warn"),
        LogLevel::Error => String::from_str("Error"),
    }
}

} // verus!
