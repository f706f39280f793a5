//! The parts of command learning that are exact: the base command of a
//! command line, the time-of-day categories, which command sequences may
//! become patterns, and the average interval between commands.

use vstd::prelude::*;
use crate::text::{chars_of, split_whitespace_chars, string_from_chars, str_eq, ws_words};

verus! {

/// The base command of a command line: its first word, or nothing.
pub open spec fn base_command(line: Seq<char>) -> Seq<char> {
    if ws_words(line).len() > 0 {
        ws_words(line)[0]
    } else {
        Seq::empty()
    }
}

/// The base command of a command line (its first white-space separated
/// word; empty when there is none).
pub fn extract_base_command(full_command: &str) -> (s: String)
    ensures
        s@ == base_command(full_command@),
{
    let v = chars_of(full_command);
    let words = split_whitespace_chars(v.as_slice());
    if words.len() > 0 {
        string_from_chars(words[0].as_slice())
    } else {
        String::new()
    }
}

/// Time of day categories for pattern analysis.
#[derive(Debug, Clone, Copy, PartialEq, Eq, Structural)]
pub enum TimeCategory {
    /// 6am to noon
    Morning,
    /// noon to 6pm
    Afternoon,
    /// 6pm to midnight
    Evening,
    /// midnight to 6am
    Night,
}

/// The category of an hour of the day.
pub open spec fn hour_category(hour: u32) -> TimeCategory {
    if 6 <= hour <= 11 {
        TimeCategory::Morning
    } else if 12 <= hour <= 17 {
        TimeCategory::Afternoon
    } else if 18 <= hour <= 23 {
        TimeCategory::Evening
    } else {
        TimeCategory::Night
    }
}

impl TimeCategory {
    /// The category of the hour `hour` (0 to 23) of a time.
    pub fn from_hour(hour: u32) -> (c: Self)
        ensures
            c == hour_category(hour),
    {
        if 6 <= hour && hour <= 11 {
            TimeCategory::Morning
        } else if 12 <= hour && hour <= 17 {
            TimeCategory::Afternoon
        } else if 18 <= hour && hour <= 23 {
            TimeCategory::Evening
        } else {
            TimeCategory::Night
        }
    }
}

/// Source of a command suggestion.
#[derive(Debug, Clone, Copy, PartialEq, Eq, Structural)]
pub enum SuggestionSource {
    /// From learned patterns
    Pattern,
    /// From frequent commands
    Frequency,
    /// From directory-specific history
    Directory,
    /// From user preferences
    Preference,
}

/// Context of a command pattern.
#[derive(Debug, Clone)]
pub struct PatternContext {
    /// Working directory
    pub directory: String,
    /// Project identifier (if known)
    pub project_id: Option<String>,
    /// Time of day category
    pub time_category: TimeCategory,
}

/// The single commands too common to make a pattern of their own.
pub open spec fn common_single(c: Seq<char>) -> bool {
    c == "ls"@ || c == "cd"@ || c == "pwd"@ || c == "clear"@
}

/// Whether a sequence of base commands may become a pattern: not two equal
/// commands, and not one very common command alone.
pub open spec fn may_be_pattern(sequence: Seq<Seq<char>>) -> bool {
    !(sequence.len() == 2 && sequence[0] == sequence[1]) && !(sequence.len() == 1 && common_single(
        sequence[0],
    ))
}

/// Whether a sequence of base commands may become a pattern.
pub fn should_create_pattern(sequence: &[String]) -> (b: bool)
    ensures
        b == may_be_pattern(sequence@.map_values(|s: String| s@)),
{
    let ghost sv = sequence@.map_values(|s: String| s@);
    if sequence.len() == 2 && str_eq(sequence[0].as_str(), sequence[1].as_str()) {
        assert(sv[0] == sv[1]);
        return false;
    }
    if sequence.len() == 1 {
        let c = sequence[0].as_str();
        if str_eq(c, "ls") || str_eq(c, "cd") || str_eq(c, "pwd") || str_eq(c, "clear") {
            return false;
        }
    }
    true
}

/// The sum of the gaps between consecutive times `t[k-1]` and `t[k]`,
/// `k < n`, a gap backwards in time counting as 0.
pub open spec fn gap_sum(t: Seq<i64>, n: int) -> int
    decreases n,
{
    if n <= 1 {
        0
    } else {
        let d = t[n - 1] - t[n - 2];
        gap_sum(t, n - 1) + if d > 0 {
            d
        } else {
            0
        }
    }
}

proof fn lemma_gap_sum_mono(t: Seq<i64>, a: int, b: int)
    requires
        a <= b,
    ensures
        gap_sum(t, a) <= gap_sum(t, b),
    decreases b - a,
{
    if a < b {
        lemma_gap_sum_mono(t, a, b - 1);
    }
}

/// The average gap in milliseconds between consecutive command times
/// (milliseconds since the epoch), gaps backwards in time counting as 0;
/// 0 for fewer than two commands.
pub fn average_interval_ms(times: &[i64]) -> (avg: u64)
    requires
        gap_sum(times@, times@.len() as int) <= u64::MAX,
    ensures
        times@.len() < 2 ==> avg == 0,
        times@.len() >= 2 ==> avg == gap_sum(times@, times@.len() as int) / (times@.len() - 1),
{
    if times.len() < 2 {
        return 0;
    }
    let mut total: u64 = 0;
    let mut i: usize = 1;
    while i < times.len()
        invariant
            1 <= i <= times@.len(),
            total == gap_sum(times@, i as int),
            gap_sum(times@, times@.len() as int) <= u64::MAX,
        decreases times@.len() - i,
    {
        proof {
            lemma_gap_sum_mono(times@, i + 1, times@.len() as int);
        }
        let a = times[i - 1] as i128;
        let b = times[i] as i128;
        let d = b - a;
        if d > 0 {
            total = total + d as u64;
        }
        i = i + 1;
    }
    total / ((times.len() - 1) as u64)
}

} // verus!
