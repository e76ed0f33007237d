//! The configuration decisions of the entry point: classifying the `--mode`
//! flag and validating the polling rate. Reading the flags, the YAML
//! configuration file and the topics file is I/O and stays outside.

use vstd::prelude::*;

verus! {

/// How the process is driven: topics from a file, a single topic given as
/// text, or neither (anything else prints usage and exits normally).
#[derive(Clone, Copy, PartialEq, Eq, Structural, Debug)]
pub enum RunMode {
    File,
    Text,
    Unknown,
}

/// Classifies the `--mode` flag.
pub fn parse_mode(mode: &str) -> (r: RunMode)
    ensures
        r == RunMode::File <==> mode@ == "file"@,
        r == RunMode::Text <==> mode@ == "text"@,
{
    proof {
        reveal_strlit("file");
        reveal_strlit("text");
        assert("file"@[0] == 'f');
        assert("text"@[0] == 't');
    }
    let m = String::from_str(mode);
    if m.eq(&String::from_str("file")) {
        RunMode::File
    } else if m.eq(&String::from_str("text")) {
        RunMode::Text
    } else {
        RunMode::Unknown
    }
}

/// Validates the polling rate, given in whole seconds, and converts it to
/// milliseconds. A rate of zero is fatal misconfiguration; so is one whose
/// millisecond value would not fit the counter.
pub fn validate_rate(rate_secs: u64) -> (r: Option<u64>)
    ensures
        r is Some <==> 1 <= rate_secs <= u64::MAX / 1000,
        r is Some ==> r->0 == rate_secs * 1000,
{
    if rate_secs == 0 {
        None
    } else if rate_secs > u64::MAX / 1000 {
        None
    } else {
        Some(rate_secs * 1000)
    }
}

} // verus!
