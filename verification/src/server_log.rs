//! Counters read from the model server's log lines: the context tokens in use
//! (`n_tokens = ...`) and the tokens decoded (`n_decoded = ...`).
use vstd::prelude::*;
use crate::text::{
    chars_of, lemma_split_nonempty, occurs_at, occurs_at_exec, parse_unsigned, parse_unsigned_exec, seq_contains,
    split_seq, split_str, string_of, trim, trim_str,
};

verus! {

/// The last position at or before `i` where `needle` occurs in `hay`, or -1.
pub open spec fn last_occurrence_upto(hay: Seq<char>, needle: Seq<char>, i: int) -> int
    decreases i + 1,
{
    if i < 0 {
        -1
    } else if occurs_at(hay, needle, i) {
        i
    } else {
        last_occurrence_upto(hay, needle, i - 1)
    }
}

/// What follows the last occurrence of `pattern` in `line` (all of `line` when it has
/// none): for a pattern that cannot overlap itself, such as those read here, the last
/// piece of `line.split(pattern)`.
pub open spec fn after_pattern(line: Seq<char>, pattern: Seq<char>) -> Seq<char> {
    let k = last_occurrence_upto(line, pattern, line.len() - pattern.len());
    if k < 0 { line } else { line.skip(k + pattern.len()) }
}

/// The counter a line reports after `pattern`: the text after the pattern, up to the
/// first comma, trimmed, read as an unsigned number of at most `max`.
pub open spec fn counter_after(line: Seq<char>, pattern: Seq<char>, max: nat) -> Option<nat> {
    if seq_contains(line, pattern) {
        parse_unsigned(trim(split_seq(after_pattern(line, pattern), ',')[0]), max)
    } else {
        None
    }
}

proof fn lemma_last_occurrence(hay: Seq<char>, needle: Seq<char>, i: int)
    ensures
        last_occurrence_upto(hay, needle, i) >= 0 ==> occurs_at(hay, needle, last_occurrence_upto(hay, needle, i)),
        last_occurrence_upto(hay, needle, i) < 0 || last_occurrence_upto(hay, needle, i) <= i,
        last_occurrence_upto(hay, needle, i) < 0 ==> forall|j: int| 0 <= j <= i ==> !occurs_at(hay, needle, j),
    decreases i + 1,
{
    if i >= 0 && !occurs_at(hay, needle, i) {
        lemma_last_occurrence(hay, needle, i - 1);
    }
}

fn find_last(hay: &Vec<char>, needle: &Vec<char>) -> (r: Option<usize>)
    ensures
        match r {
            Some(k) => k as int == last_occurrence_upto(hay@, needle@, hay@.len() - needle@.len()) && k >= 0
                && occurs_at(hay@, needle@, k as int),
            None => !seq_contains(hay@, needle@),
        },
{
    if needle.len() > hay.len() {
        proof {
            assert forall|j: int| !occurs_at(hay@, needle@, j) by {}
        }
        return None;
    }
    let top = hay.len() - needle.len();
    let mut i: usize = top;
    loop
        invariant
            i <= top,
            top == hay@.len() - needle@.len(),
            last_occurrence_upto(hay@, needle@, top as int) == last_occurrence_upto(hay@, needle@, i as int),
        decreases i,
    {
        if occurs_at_exec(hay.as_slice(), needle.as_slice(), i) {
            return Some(i);
        }
        if i == 0 {
            proof {
                lemma_last_occurrence(hay@, needle@, top as int);
                assert(last_occurrence_upto(hay@, needle@, -1) == -1);
                assert(last_occurrence_upto(hay@, needle@, 0) == -1);
                assert forall|j: int| !occurs_at(hay@, needle@, j) by {
                    if 0 <= j <= top {
                    }
                }
            }
            return None;
        }
        i = i - 1;
    }
}

/// Reads the counter after `pattern` in `line` (see `counter_after`).
pub fn read_counter(line: &str, pattern: &str, max: u64) -> (r: Option<u64>)
    ensures
        match counter_after(line@, pattern@, max as nat) {
            Some(v) => r == Some(v as u64),
            None => r is None,
        },
{
    let hay = chars_of(line);
    let needle = chars_of(pattern);
    let k = match find_last(&hay, &needle) {
        Some(k) => k,
        None => {
            return None;
        },
    };
    proof {
        assert(occurs_at(line@, pattern@, k as int));
        assert(seq_contains(line@, pattern@));
    }
    proof {
        assert(occurs_at(hay@, needle@, k as int));
        assert(k + needle@.len() <= hay@.len());
    }
    let hl = hay.len();
    let nl = needle.len();
    assert(k + nl <= hl);
    let start = k + nl;
    let mut rest: Vec<char> = Vec::new();
    let mut j: usize = start;
    while j < hay.len()
        invariant
            start <= j <= hay.len(),
            rest@ == hay@.subrange(start as int, j as int),
        decreases hay.len() - j,
    {
        rest.push(hay[j]);
        assert(hay@.subrange(start as int, j + 1) == hay@.subrange(start as int, j as int).push(hay@[j as int]));
        j = j + 1;
    }
    let tail = string_of(rest.as_slice());
    proof {
        assert(tail@ =~= line@.skip(k + pattern@.len()));
    }
    let fields = split_str(tail.as_str(), ',');
    proof {
        lemma_split_nonempty(tail@, ',');
    }
    let first = trim_str(fields[0].as_str());
    parse_unsigned_exec(first.as_str(), max)
}

/// Updates the context tokens in use and the tokens decoded from one server log line
/// (see `counter_after`; a counter the line does not report, or reports beyond its
/// type's range, is left as it was).
pub fn apply_log_counters(line: &str, ctx_used: &mut u32, decoded: &mut u64)
    ensures
        *final(ctx_used) == (match counter_after(line@, "n_tokens ="@, u32::MAX as nat) {
            Some(v) => v as u32,
            None => *old(ctx_used),
        }),
        *final(decoded) == (match counter_after(line@, "n_decoded ="@, u64::MAX as nat) {
            Some(v) => v as u64,
            None => *old(decoded),
        }),
{
    match read_counter(line, "n_tokens =", u32::MAX as u64) {
        Some(v) => {
            *ctx_used = v as u32;
        },
        None => {},
    }
    match read_counter(line, "n_decoded =", u64::MAX) {
        Some(v) => {
            *decoded = v;
        },
        None => {},
    }
}

/// Lines taken from the server log in one poll: the poll stops once more than 100 are
/// taken.
pub const LOG_LINES_PER_POLL: usize = 101;

} // verus!
