//! Times a single probe of a regex against a text.
//!
//! A probe runs the regex once in one of three ways: a boolean match
//! test, a first-match search, or an exhaustive walk over every
//! non-overlapping match. The sampler brackets one probe between two
//! readings of the monotonic clock and records the text's character
//! length with the elapsed nanoseconds.

use vstd::prelude::*;

use crate::enums::{RegexMethod, RegexSpeedError};

verus! {

/// Declares regex-lite's compiled regex; the crate sees nothing of
/// its inside.
#[verifier::external_type_specification]
#[verifier::external_body]
pub struct ExRegex(regex_lite::Regex);

/// Declares regex-lite's compile error; the crate sees nothing of its
/// inside.
#[verifier::external_type_specification]
#[verifier::external_body]
pub struct ExRegexError(regex_lite::Error);

/// Declares std's monotonic clock reading; the crate sees nothing of
/// its inside.
#[verifier::external_type_specification]
#[verifier::external_body]
pub struct ExInstant(std::time::Instant);

/// Whether regex-lite compiles this pattern: its syntax is accepted
/// and the compiled form fits the default size limit.
pub uninterp spec fn pattern_compiles(pattern: Seq<char>) -> bool;

/// Whether the regex compiled from `pattern` matches anywhere in
/// `text`.
pub uninterp spec fn regex_match_exists(pattern: Seq<char>, text: Seq<char>) -> bool;

/// How many successive non-overlapping matches the regex compiled
/// from `pattern` finds in `text`.
pub uninterp spec fn regex_match_count(pattern: Seq<char>, text: Seq<char>) -> usize;

/// Relies on regex_lite::Regex::new: compilation is deterministic in
/// the pattern, and an error comes exactly on an invalid pattern or
/// one whose compiled form exceeds the default size limit.
#[verifier::external_body]
fn compile_pattern(pattern: &str) -> (r: Result<regex_lite::Regex, regex_lite::Error>)
    ensures
        r is Ok <==> pattern_compiles(pattern@),
{
    regex_lite::Regex::new(pattern)
}

/// A regex together with the pattern it was compiled from.
///
/// The fields stay private so that every value ties the compiled form
/// to its own pattern: `new` is the only constructor.
pub struct CompiledRegex {
    inner: regex_lite::Regex,
    pattern: String,
}

impl CompiledRegex {
    /// The pattern this regex was compiled from.
    pub closed spec fn spec_pattern(&self) -> Seq<char> {
        self.pattern@
    }

    /// Compiles a pattern, reporting `PatternCompileFailure` for one
    /// that regex-lite refuses.
    pub fn new(pattern: &str) -> (r: Result<CompiledRegex, RegexSpeedError>)
        ensures
            r is Ok <==> pattern_compiles(pattern@),
            r is Ok ==> r->Ok_0.spec_pattern() == pattern@,
            r is Err ==> r->Err_0 == RegexSpeedError::PatternCompileFailure,
    {
        match compile_pattern(pattern) {
            Ok(inner) => Ok(CompiledRegex { inner, pattern: String::from_str(pattern) }),
            Err(_) => Err(RegexSpeedError::PatternCompileFailure),
        }
    }
}

/// Relies on regex_lite::Regex::is_match: returns true if and only if
/// there is a match for the regex anywhere in the haystack, a result
/// determined by pattern and haystack alone.
#[verifier::external_body]
fn regex_is_match(regex: &CompiledRegex, text: &str) -> (r: bool)
    ensures
        r == regex_match_exists(regex.spec_pattern(), text@),
{
    regex.inner.is_match(text)
}

/// Relies on regex_lite::Regex::find: returns the first match when
/// one exists and `None` otherwise, so `is_some` on it is the same
/// match-exists test that `is_match` answers.
#[verifier::external_body]
fn regex_find_is_some(regex: &CompiledRegex, text: &str) -> (r: bool)
    ensures
        r == regex_match_exists(regex.spec_pattern(), text@),
{
    regex.inner.find(text).is_some()
}

/// Relies on regex_lite::Regex::find_iter: yields every successive
/// non-overlapping match in the haystack, a sequence determined by
/// pattern and haystack alone.
#[verifier::external_body]
fn regex_count_matches(regex: &CompiledRegex, text: &str) -> (r: usize)
    ensures
        r == regex_match_count(regex.spec_pattern(), text@),
{
    regex.inner.find_iter(text).count()
}

/// Runs the regex once against the text in the way the method picks:
/// `Match` and `Find` report whether a match exists, and `FindIter`
/// walks every non-overlapping match and reports true once the walk
/// is complete, whether or not anything matched.
pub fn probe(regex: &CompiledRegex, search_method: RegexMethod, text: &str) -> (r: bool)
    ensures
        search_method is Match ==> r == regex_match_exists(regex.spec_pattern(), text@),
        search_method is Find ==> r == regex_match_exists(regex.spec_pattern(), text@),
        search_method is FindIter ==> r == true,
{
    match search_method {
        RegexMethod::Match => regex_is_match(regex, text),
        RegexMethod::Find => regex_find_is_some(regex, text),
        RegexMethod::FindIter => {
            let _count = regex_count_matches(regex, text);
            true
        },
    }
}

/// Relies on std::time::Instant::now: reads the monotonic clock.
/// Nothing is assumed of the reading.
#[verifier::external_body]
fn monotonic_now() -> std::time::Instant {
    std::time::Instant::now()
}

/// Relies on std::time::Instant::elapsed: the time between the
/// reading and now, never negative. Its magnitude is left open.
#[verifier::external_body]
fn elapsed_since(start: &std::time::Instant) -> std::time::Duration {
    start.elapsed()
}

/// Relies on std::time::Duration::as_nanos: the whole number of
/// nanoseconds the duration spans. Its magnitude is left open.
#[verifier::external_body]
fn duration_as_nanos(duration: &std::time::Duration) -> u128 {
    duration.as_nanos()
}

/// One timing sample: the character length of the text probed and the
/// elapsed time of the probe in nanoseconds.
pub struct SpeedTestResult {
    pub length: usize,
    pub duration: u128,
}

impl SpeedTestResult {
    /// Packs a length and an elapsed time into a sample.
    pub fn new(length: usize, duration: u128) -> (r: SpeedTestResult)
        ensures
            r.length == length,
            r.duration == duration,
    {
        SpeedTestResult { length, duration }
    }
}

/// Times exactly one probe of the regex against the text and records
/// the text's character length with the elapsed nanoseconds. The
/// probe's boolean result is discarded; what elapsed time comes back
/// depends on the clock and is left open.
pub fn calc_duration_for_text(
    regex: &CompiledRegex,
    search_method: RegexMethod,
    text: &str,
) -> (r: SpeedTestResult)
    ensures
        r.length == text@.len(),
{
    let length = text.unicode_len();
    let start = monotonic_now();
    let _matched = probe(regex, search_method, text);
    let elapsed = elapsed_since(&start);
    let duration = duration_as_nanos(&elapsed);
    SpeedTestResult::new(length, duration)
}

} // verus!
