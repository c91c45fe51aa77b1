//! Structured runtime-log entries and the pure selection rules applied to
//! them; appending to and reading the log file is the host's job.

use vstd::prelude::*;

verus! {

/// One structured log line.
#[derive(Debug, Clone, PartialEq, Eq)]
pub struct RuntimeLogEntry {
    pub timestamp_unix_ms: u128,
    pub level: String,
    pub event: String,
    pub message: String,
}

/// The newest `limit` lines of the log, oldest first.
pub fn recent_lines(lines: &Vec<String>, limit: usize) -> (r: Vec<String>)
    ensures
        r@ == lines@.subrange(
            lines@.len() - vstd::math::min(limit as int, lines@.len() as int),
            lines@.len() as int,
        ),
{
    let n = lines.len();
    let take = if limit < n {
        limit
    } else {
        n
    };
    let mut r: Vec<String> = Vec::new();
    let mut i: usize = n - take;
    while i < n
        invariant
            n - take <= i <= n,
            n == lines@.len(),
            take <= n,
            r@ == lines@.subrange(n - take, i as int),
        decreases n - i,
    {
        r.push(lines[i].clone());
        assert(r@ =~= lines@.subrange(n - take, i + 1));
        i += 1;
    }
    r
}

/// Bring a requested log-line count into the served range: 40 when absent,
/// and between 1 and 200 otherwise.
pub fn clamp_log_limit(limit: Option<usize>) -> (r: usize)
    ensures
        limit is None ==> r == 40usize,
        limit is Some ==> r == (if limit->0 < 1 {
            1usize
        } else if limit->0 > 200 {
            200usize
        } else {
            limit->0
        }),
{
    match limit {
        Some(v) => if v < 1 {
            1
        } else if v > 200 {
            200
        } else {
            v
        },
        None => 40,
    }
}

} // verus!
