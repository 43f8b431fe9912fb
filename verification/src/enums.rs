//! The enums used across the crate, and its error type.

use vstd::prelude::*;

verus! {

/// The time unit used when reporting durations.
#[derive(Clone, Copy, Debug, PartialEq, Eq, Structural)]
pub enum TimeUnit {
    Nanoseconds,
    Microseconds,
    Milliseconds,
}

impl TimeUnit {
    /// The short display label of this unit.
    pub fn label(&self) -> (r: &'static str)
        ensures
            self is Nanoseconds ==> r@ == "ns"@,
            self is Microseconds ==> r@ == "\u{3bc}s"@,
            self is Milliseconds ==> r@ == "ms"@,
    {
        match self {
            TimeUnit::Nanoseconds => "ns",
            TimeUnit::Microseconds => "\u{3bc}s",
            TimeUnit::Milliseconds => "ms",
        }
    }
}

/// The strategy used to exercise a regex against a text.
#[derive(Clone, Copy, Debug, PartialEq, Eq, Structural)]
pub enum RegexMethod {
    Match,
    Find,
    FindIter,
}

/// The variant each accepted method name stands for, or `None` for
/// any other name.
pub open spec fn spec_method_from_name(s: Seq<char>) -> Option<RegexMethod> {
    if s == "match"@ {
        Some(RegexMethod::Match)
    } else if s == "find"@ {
        Some(RegexMethod::Find)
    } else if s == "find_iter"@ {
        Some(RegexMethod::FindIter)
    } else {
        None
    }
}

impl RegexMethod {
    /// The accepted method names, for help text.
    pub fn options_as_str() -> (r: &'static str)
        ensures
            r@ == "match, find, find_iter"@,
    {
        "match, find, find_iter"
    }
}

/// Maps a method name from the command line to its variant, or `None`
/// when the name is not one of the accepted options.
pub fn method_from_name(s: &str) -> (r: Option<RegexMethod>)
    ensures
        r == spec_method_from_name(s@),
{
    let owned = String::from_str(s);
    if owned == String::from_str("match") {
        Some(RegexMethod::Match)
    } else if owned == String::from_str("find") {
        Some(RegexMethod::Find)
    } else if owned == String::from_str("find_iter") {
        Some(RegexMethod::FindIter)
    } else {
        None
    }
}

/// The errors the pipeline can report.
#[derive(Clone, Copy, Debug, PartialEq, Eq, Structural)]
pub enum RegexSpeedError {
    /// A random string of length zero was requested.
    InvalidLength,
    /// The configured step between string lengths is zero.
    InvalidStep,
    /// The configured bounds or repetition count are unusable.
    InvalidConfiguration,
    /// The pattern did not compile to a regex.
    PatternCompileFailure,
}

} // verus!
