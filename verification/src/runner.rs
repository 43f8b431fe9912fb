//! Orchestrates one run: walks the configured lengths, generates the
//! random strings, times one probe per string, and accumulates every
//! duration into the min/max envelope.

use vstd::prelude::*;

use vstd::arithmetic::div_mod::lemma_fundamental_div_mod_converse;
use vstd::arithmetic::mul::lemma_mul_is_distributive_add_other_way;

use crate::calc_regex_speed::{calc_duration_for_text, probe, CompiledRegex, SpeedTestResult};
use crate::duration_utils::{spec_max_after, spec_min_after, MinMaxDuration};
use crate::enums::{RegexMethod, RegexSpeedError};
use crate::rand_str_builder::{build_rand_strs, insert_substring};

verus! {

/// One run's configuration: the compiled regex, the probing method,
/// the inclusive range of string lengths with its step, how many
/// strings to time per length, an optional substring every string
/// must contain, and whether the caller reports each sample.
pub struct Config {
    pub regex: CompiledRegex,
    pub method: RegexMethod,
    pub min_length: usize,
    pub max_length: usize,
    pub step_size: usize,
    pub num_tests: usize,
    pub required_str: Option<String>,
    pub verbose: bool,
}

/// Whether the bounds or the repetition count make the configuration
/// unusable.
pub open spec fn spec_config_invalid(cfg: Config) -> bool {
    cfg.max_length < 1 || cfg.num_tests < 1 || cfg.min_length > cfg.max_length
}

/// How many characters splicing the required substring adds to each
/// generated string.
pub open spec fn spec_required_len(cfg: Config) -> nat {
    match cfg.required_str {
        Some(s) => s@.len(),
        None => 0,
    }
}

/// How many lengths the run visits: every `length` with
/// `min_length <= length <= max_length` and
/// `length == min_length + k * step_size` for some `k >= 0`.
pub open spec fn spec_num_lengths(cfg: Config) -> int
    recommends
        cfg.step_size >= 1,
{
    if cfg.min_length > cfg.max_length {
        0
    } else {
        (cfg.max_length - cfg.min_length) / (cfg.step_size as int) + 1
    }
}

/// The character length the sample at position `i` must record:
/// samples come in generation order, `num_tests` of them per visited
/// length, lengths ascending.
pub open spec fn spec_length_at(cfg: Config, i: int) -> int
    recommends
        cfg.num_tests >= 1,
{
    cfg.min_length + (i / (cfg.num_tests as int)) * cfg.step_size + spec_required_len(cfg)
}

/// Whether every sample of the run took a positive time.
pub open spec fn spec_all_positive(results: Seq<SpeedTestResult>) -> bool {
    forall|i: int| 0 <= i < results.len() ==> (#[trigger] results[i]).duration > 0
}

/// What the envelope says about the samples it accumulated.
///
/// The maximum bounds every duration and is attained by one of them.
/// The minimum never exceeds the maximum. As long as every duration
/// is positive the minimum bounds them from below and is attained;
/// a zero-duration sample can reset the minimum's zero sentinel, so
/// nothing more is claimed then.
pub open spec fn spec_envelope_ok(results: Seq<SpeedTestResult>, envelope: MinMaxDuration) -> bool {
    &&& envelope.min <= envelope.max
    &&& (results.len() == 0 ==> envelope.min == 0 && envelope.max == 0)
    &&& forall|i: int| 0 <= i < results.len() ==> (#[trigger] results[i]).duration <= envelope.max
    &&& (results.len() > 0 ==> exists|i: int|
        0 <= i < results.len() && (#[trigger] results[i]).duration == envelope.max)
    &&& (spec_all_positive(results) && results.len() > 0 ==> {
        &&& envelope.min > 0
        &&& forall|i: int|
            0 <= i < results.len() ==> envelope.min <= (#[trigger] results[i]).duration
        &&& exists|i: int|
            0 <= i < results.len() && (#[trigger] results[i]).duration == envelope.min
    })
}

/// Offering one more sample's duration to both bounds of an envelope
/// that correctly describes the samples so far keeps it correct for
/// the samples extended by that sample.
proof fn lemma_envelope_push(
    results: Seq<SpeedTestResult>,
    envelope: MinMaxDuration,
    sample: SpeedTestResult,
    updated: MinMaxDuration,
)
    requires
        spec_envelope_ok(results, envelope),
        updated.min == spec_min_after(envelope.min, sample.duration),
        updated.max == spec_max_after(envelope.max, sample.duration),
    ensures
        spec_envelope_ok(results.push(sample), updated),
{
    let grown = results.push(sample);
    let n = grown.len() as int;
    assert(grown[n - 1] == sample);
    assert forall|i: int| 0 <= i < results.len() implies grown[i] == results[i] by {}
    if sample.duration > envelope.max {
        assert(grown[n - 1].duration == updated.max);
    } else if results.len() > 0 {
        let w = choose|i: int|
            0 <= i < results.len() && (#[trigger] results[i]).duration == envelope.max;
        assert(grown[w].duration == updated.max);
    } else {
        assert(grown[n - 1].duration == updated.max);
    }
    if spec_all_positive(grown) {
        assert(sample.duration > 0);
        assert(spec_all_positive(results));
        if results.len() == 0 {
            assert(updated.min == sample.duration);
            assert(grown[n - 1].duration == updated.min);
        } else {
            assert(envelope.min > 0);
            if sample.duration < envelope.min {
                assert(grown[n - 1].duration == updated.min);
            } else {
                assert(updated.min == envelope.min);
                let w = choose|i: int|
                    0 <= i < results.len() && (#[trigger] results[i]).duration == envelope.min;
                assert(grown[w].duration == updated.min);
            }
        }
    }
}

/// Checks the configuration: a step of zero is `InvalidStep`, and a
/// zero maximum length, a zero repetition count, or a minimum length
/// above the maximum is `InvalidConfiguration`.
pub fn validate(cfg: &Config) -> (r: Result<(), RegexSpeedError>)
    ensures
        cfg.step_size == 0 ==> r is Err && r->Err_0 == RegexSpeedError::InvalidStep,
        cfg.step_size >= 1 && spec_config_invalid(*cfg) ==> r is Err && r->Err_0
            == RegexSpeedError::InvalidConfiguration,
        cfg.step_size >= 1 && !spec_config_invalid(*cfg) ==> r is Ok,
{
    if cfg.step_size < 1 {
        Err(RegexSpeedError::InvalidStep)
    } else if cfg.max_length < 1 || cfg.num_tests < 1 || cfg.min_length > cfg.max_length {
        Err(RegexSpeedError::InvalidConfiguration)
    } else {
        Ok(())
    }
}

/// Runs the whole pipeline.
///
/// For each length from `min_length` to `max_length` stepped by
/// `step_size`, it generates `num_tests` random strings of that
/// length, splices in the required substring when one is configured,
/// and times one probe per string; every duration is offered to the
/// envelope as a candidate for both bounds. Samples come back in
/// generation order: `num_tests` in a row per length, lengths
/// ascending.
#[verifier::loop_isolation(false)]
pub fn run(cfg: &Config) -> (r: Result<(Vec<SpeedTestResult>, MinMaxDuration), RegexSpeedError>)
    ensures
        cfg.step_size == 0 ==> r is Err && r->Err_0 == RegexSpeedError::InvalidStep,
        cfg.step_size >= 1 && spec_config_invalid(*cfg) ==> r is Err && r->Err_0
            == RegexSpeedError::InvalidConfiguration,
        cfg.step_size >= 1 && !spec_config_invalid(*cfg) && cfg.min_length == 0 ==> r is Err
            && r->Err_0 == RegexSpeedError::InvalidLength,
        cfg.step_size >= 1 && !spec_config_invalid(*cfg) && cfg.min_length >= 1 ==> r is Ok,
        r is Ok ==> r->Ok_0.0@.len() == spec_num_lengths(*cfg) * cfg.num_tests,
        r is Ok ==> forall|i: int|
            0 <= i < r->Ok_0.0@.len() ==> (#[trigger] r->Ok_0.0@[i]).length == spec_length_at(
                *cfg,
                i,
            ),
        r is Ok ==> spec_envelope_ok(r->Ok_0.0@, r->Ok_0.1),
{
    match validate(cfg) {
        Ok(_) => (),
        Err(e) => {
            return Err(e);
        },
    }
    if cfg.min_length < 1 {
        // The first generation would ask for a string of length zero.
        return Err(RegexSpeedError::InvalidLength);
    }
    let mut results: Vec<SpeedTestResult> = Vec::new();
    let mut envelope = MinMaxDuration::new();
    // One untimed warm-up probe absorbs the engine's one-time
    // initialization cost before the first timed sample.
    let _ = probe(&cfg.regex, RegexMethod::Find, "z");
    let ghost mut steps: int = 0;
    let mut length: usize = cfg.min_length;
    loop
        invariant
            0 <= steps,
            cfg.min_length <= length <= cfg.max_length,
            length == cfg.min_length + steps * cfg.step_size,
            results@.len() == steps * cfg.num_tests,
            forall|i: int|
                0 <= i < results@.len() ==> (#[trigger] results@[i]).length == spec_length_at(
                    *cfg,
                    i,
                ),
            spec_envelope_ok(results@, envelope),
        decreases cfg.max_length - length,
    {
        let rand_strs = match build_rand_strs(length, cfg.num_tests) {
            Ok(v) => v,
            Err(e) => {
                return Err(e);
            },
        };
        let mut t: usize = 0;
        while t < cfg.num_tests
            invariant
                t <= cfg.num_tests,
                results@.len() == steps * cfg.num_tests + t,
                forall|i: int|
                    0 <= i < results@.len() ==> (#[trigger] results@[i]).length == spec_length_at(
                        *cfg,
                        i,
                    ),
                spec_envelope_ok(results@, envelope),
            decreases cfg.num_tests - t,
        {
            let base = &rand_strs[t];
            let test_str: String = match &cfg.required_str {
                Some(req) => insert_substring(base.as_str(), req.as_str()),
                None => base.clone(),
            };
            let sample = calc_duration_for_text(&cfg.regex, cfg.method, test_str.as_str());
            proof {
                lemma_fundamental_div_mod_converse(
                    steps * cfg.num_tests + t,
                    cfg.num_tests as int,
                    steps,
                    t as int,
                );
            }
            let duration = sample.duration;
            let ghost old_results = results@;
            let ghost old_envelope = envelope;
            let ghost sample_snapshot = sample;
            results.push(sample);
            envelope.register_min(duration);
            envelope.register_max(duration);
            proof {
                lemma_envelope_push(old_results, old_envelope, sample_snapshot, envelope);
            }
            t = t + 1;
        }
        proof {
            lemma_mul_is_distributive_add_other_way(cfg.num_tests as int, steps, 1);
            lemma_mul_is_distributive_add_other_way(cfg.step_size as int, steps, 1);
            steps = steps + 1;
        }
        if cfg.max_length - length < cfg.step_size {
            proof {
                lemma_fundamental_div_mod_converse(
                    cfg.max_length - cfg.min_length,
                    cfg.step_size as int,
                    steps - 1,
                    cfg.max_length - length,
                );
            }
            break;
        }
        length = length + cfg.step_size;
    }
    Ok((results, envelope))
}

} // verus!
