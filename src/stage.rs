//! Classification of worker output lines into pipeline stages.
use vstd::prelude::*;

verus! {

/// `pat` occurs in `s` as a contiguous run of characters.
pub open spec fn contains_seq(s: Seq<char>, pat: Seq<char>) -> bool {
    exists|i: int| 0 <= i && i + pat.len() <= s.len() && #[trigger] s.subrange(i, i + pat.len()) == pat
}

/// `pat` occurs in `s` at position `i`.
pub open spec fn occurs_at(s: Seq<char>, pat: Seq<char>, i: int) -> bool {
    0 <= i && i + pat.len() <= s.len() && forall|k: int| 0 <= k < pat.len() ==> s[i + k] == pat[k]
}

/// Returns whether `pat` occurs in `s`.
pub fn contains_str(s: &str, pat: &str) -> (r: bool)
    ensures
        r == contains_seq(s@, pat@),
{
    let n = s.unicode_len();
    let m = pat.unicode_len();
    if m > n {
        proof {
            assert forall|i: int| 0 <= i && i + pat@.len() <= s@.len() implies #[trigger] s@.subrange(i, i + pat@.len()) != pat@ by {}
        }
        return false;
    }
    let mut i: usize = 0;
    while i <= n - m
        invariant
            n == s@.len(),
            m == pat@.len(),
            m <= n,
            i <= n - m + 1,
            forall|j: int| 0 <= j < i ==> !occurs_at(s@, pat@, j),
        decreases n - m + 1 - i,
    {
        let mut k: usize = 0;
        let mut same = true;
        while k < m
            invariant
                n == s@.len(),
                m == pat@.len(),
                i + m <= n,
                k <= m,
                same == (forall|t: int| 0 <= t < k ==> s@[i + t] == pat@[t]),
            decreases m - k,
        {
            if s.get_char(i + k) != pat.get_char(k) {
                same = false;
            }
            k = k + 1;
        }
        if same {
            proof {
                assert(s@.subrange(i as int, i + m) =~= pat@);
            }
            return true;
        }
        i = i + 1;
    }
    proof {
        assert forall|j: int| 0 <= j && j + pat@.len() <= s@.len() implies #[trigger] s@.subrange(j, j + pat@.len()) != pat@ by {
            assert(!occurs_at(s@, pat@, j));
            let w = choose|t: int| 0 <= t < pat@.len() && s@[j + t] != pat@[t];
            assert(s@.subrange(j, j + pat@.len())[w] != pat@[w]);
        }
    }
    false
}

/// The stage that a single line announces, if any. The stage-three
/// marker decides whatever else the line holds; otherwise the first of
/// the markers "Running Stage 1", "Running Stage 2", "Running Stage 4"
/// that occurs in it.
pub open spec fn spec_stage_of(line: Seq<char>) -> Option<u8> {
    if contains_seq(line, "Running Stage 3"@) {
        Some(3u8)
    } else if contains_seq(line, "Running Stage 1"@) {
        Some(1u8)
    } else if contains_seq(line, "Running Stage 2"@) {
        Some(2u8)
    } else if contains_seq(line, "Running Stage 4"@) {
        Some(4u8)
    } else {
        None
    }
}

/// The current stage after one more line: a classified line overwrites
/// it, any other line leaves it as it was.
pub open spec fn spec_next_stage(current: Option<u8>, line: Seq<char>) -> Option<u8> {
    match spec_stage_of(line) {
        Some(s) => Some(s),
        None => current,
    }
}

/// The current stage after folding a whole sequence of lines.
pub open spec fn spec_stage_after(start: Option<u8>, lines: Seq<Seq<char>>) -> Option<u8>
    decreases lines.len(),
{
    if lines.len() == 0 {
        start
    } else {
        spec_next_stage(spec_stage_after(start, lines.drop_last()), lines.last())
    }
}

/// Maps a worker output line to the stage it announces, or `None` for
/// ordinary log chatter. Never fails.
pub fn stage_from_line(line: &str) -> (r: Option<u8>)
    ensures
        r == spec_stage_of(line@),
        contains_seq(line@, "Running Stage 3"@) ==> r == Some(3u8),
        r matches Some(s) ==> 1 <= s <= 4,
{
    if contains_str(line, "Running Stage 3") {
        return Some(3);
    }
    if contains_str(line, "Running Stage 1") {
        return Some(1);
    }
    if contains_str(line, "Running Stage 2") {
        return Some(2);
    }
    if contains_str(line, "Running Stage 4") {
        return Some(4);
    }
    None
}

/// One step of the current-stage fold.
pub fn next_stage(current: Option<u8>, line: &str) -> (r: Option<u8>)
    ensures
        r == spec_next_stage(current, line@),
{
    match stage_from_line(line) {
        Some(s) => Some(s),
        None => current,
    }
}

/// Folds the current stage over a sequence of lines, in order.
pub fn stage_after_lines(start: Option<u8>, lines: &Vec<String>) -> (r: Option<u8>)
    ensures
        r == spec_stage_after(start, lines@.map_values(|l: String| l@)),
{
    let ghost views = lines@.map_values(|l: String| l@);
    let mut cur = start;
    let mut i: usize = 0;
    while i < lines.len()
        invariant
            i <= lines@.len(),
            views == lines@.map_values(|l: String| l@),
            cur == spec_stage_after(start, views.subrange(0, i as int)),
        decreases lines@.len() - i,
    {
        cur = next_stage(cur, lines[i].as_str());
        proof {
            let prefix = views.subrange(0, i + 1);
            assert(prefix.drop_last() =~= views.subrange(0, i as int));
            assert(prefix.last() == lines@[i as int]@);
        }
        i = i + 1;
    }
    proof {
        assert(views.subrange(0, i as int) =~= views);
    }
    cur
}

/// Any line carrying the stage-three marker is classified as stage three,
/// whatever text surrounds the marker.
pub proof fn lemma_stage_three_marker(prefix: Seq<char>, suffix: Seq<char>)
    ensures
        spec_stage_of(prefix + "Running Stage 3"@ + suffix) == Some(3u8),
{
    let line = prefix + "Running Stage 3"@ + suffix;
    let pat = "Running Stage 3"@;
    assert(line.subrange(prefix.len() as int, prefix.len() + pat.len() as int) =~= pat);
}

/// A line with none of the four markers is unclassified, and folding it
/// leaves the current stage unchanged.
pub proof fn lemma_unclassified_line_keeps_stage(start: Option<u8>, lines: Seq<Seq<char>>, line: Seq<char>)
    requires
        !contains_seq(line, "Running Stage 1"@),
        !contains_seq(line, "Running Stage 2"@),
        !contains_seq(line, "Running Stage 3"@),
        !contains_seq(line, "Running Stage 4"@),
    ensures
        spec_stage_of(line) is None,
        spec_stage_after(start, lines.push(line)) == spec_stage_after(start, lines),
{
    assert(lines.push(line).drop_last() =~= lines);
}

} // verus!
