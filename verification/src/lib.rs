//! Measures how long a regular expression takes to run against random
//! strings of growing length, and reduces the samples to a min/max
//! envelope expressed in an auto-selected time unit.
//!
//! The pipeline is: generate random alphanumeric strings, optionally
//! splice a required substring into each, time one probe of the regex
//! per string, and accumulate the observed durations. Rendering the
//! resulting dataset and parsing the command line are left to callers.

pub mod calc_regex_speed;
pub mod duration_utils;
pub mod enums;
pub mod rand_str_builder;
pub mod runner;
