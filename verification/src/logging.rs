//! Logging settings from the command line: the level that the verbosity
//! flags select, and the output format.
use vstd::prelude::*;

verus! {

/// Log output formats.
#[derive(Debug, Clone, Copy, PartialEq, Eq, Structural)]
pub enum LogFormat {
    /// Machine-readable JSON lines.
    Json,
    /// One short line per event.
    Compact,
    /// Multi-line, human-friendly output (the default).
    Pretty,
    /// The plain format, for a format name that is not known.
    Plain,
}

/// The level that the flags select: debug wins over verbose, verbose over
/// quiet; without a flag, warnings.
pub open spec fn spec_log_level(debug: bool, verbose: bool, quiet: bool) -> Seq<char> {
    if debug {
        "debug"@
    } else if verbose {
        "info"@
    } else if quiet {
        "error"@
    } else {
        "warn"@
    }
}

/// The log level that the flags select.
pub fn log_level_for_flags(debug: bool, verbose: bool, quiet: bool) -> (s: &'static str)
    ensures
        s@ == spec_log_level(debug, verbose, quiet),
{
    if debug {
        "debug"
    } else if verbose {
        "info"
    } else if quiet {
        "error"
    } else {
        "warn"
    }
}

/// The output format for a format name: "json", "compact", "pretty" or
/// none give those formats; any other name gives the plain format.
pub fn log_format(name: Option<&str>) -> (f: LogFormat)
    ensures
        match name {
            None => f == LogFormat::Pretty,
            Some(n) => f == if n@ == "json"@ {
                LogFormat::Json
            } else if n@ == "compact"@ {
                LogFormat::Compact
            } else if n@ == "pretty"@ {
                LogFormat::Pretty
            } else {
                LogFormat::Plain
            },
        },
{
    match name {
        None => LogFormat::Pretty,
        Some(n) => {
            let s = n.to_owned();
            if s == "json".to_owned() {
                LogFormat::Json
            } else if s == "compact".to_owned() {
                LogFormat::Compact
            } else if s == "pretty".to_owned() {
                LogFormat::Pretty
            } else {
                LogFormat::Plain
            }
        },
    }
}


/// The log level the flags select: debug whenever `--debug` is given, info
/// for `--verbose` without it, error for `--quiet` alone, warn with none.
pub proof fn law_log_level_flags(debug: bool, verbose: bool, quiet: bool)
    ensures
        debug ==> spec_log_level(debug, verbose, quiet) == "debug"@,
        !debug && verbose ==> spec_log_level(debug, verbose, quiet) == "info"@,
        !debug && !verbose && quiet ==> spec_log_level(debug, verbose, quiet) == "error"@,
        !debug && !verbose && !quiet ==> spec_log_level(debug, verbose, quiet) == "warn"@,
{
}

} // verus!
