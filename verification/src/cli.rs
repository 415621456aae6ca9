//! Command-line options, as plain values.
//!
//! The program around the library parses its arguments and hands the result
//! over as a `Cli`; `parse_args` folds the mutually exclusive detail flags
//! into the effective `CliOptions`.

use vstd::prelude::*;

verus! {

/// The recognized flags, one field per flag.
pub struct Cli {
    /// Output JSON.
    pub json: bool,
    /// Include detailed protocol data (default).
    pub full: bool,
    /// Hide detailed protocol data.
    pub simple: bool,
    /// Sort globals by interface (omit name field).
    pub sort: bool,
    /// Only show the matching protocol.
    pub protocol: Option<String>,
}

/// The effective options: `full` and `simple` are mutually exclusive and
/// collapse into `full_output`, which defaults to true.
pub struct CliOptions {
    pub json_output: bool,
    pub full_output: bool,
    pub sort_output: bool,
    pub protocol_filter: Option<String>,
}

/// Folds parsed flags into the effective options: detail is full unless
/// `--simple` was given; the other flags carry over unchanged.
pub fn parse_args(cli: Cli) -> (opts: CliOptions)
    ensures
        opts.json_output == cli.json,
        opts.full_output == !cli.simple,
        opts.sort_output == cli.sort,
        opts.protocol_filter == cli.protocol,
{
    let full_output = !cli.simple;
    CliOptions {
        json_output: cli.json,
        full_output,
        sort_output: cli.sort,
        protocol_filter: cli.protocol,
    }
}

} // verus!
