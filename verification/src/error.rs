//! Error taxonomy and stderr exception classification.
//!
//! `SandboxError` separates resource-policy violations (timeout, memory,
//! instruction budget) from setup failures and from guest-reported
//! exceptions.  `parse_python_exception` is the purely textual heuristic that
//! recovers an interpreter-level exception (type, message, optional
//! traceback) from captured stderr text; its behaviour is pinned down by
//! `spec_parse_exception`.

use vstd::prelude::*;
use vstd::string::StrSliceExecFns;
use vstd::string::StringExecFns;

use crate::text::{
    chars_of, find_char_in, match_at, spec_first_at, spec_match_at, spec_trim, trim_range,
};

verus! {

/// Errors that can occur during sandbox execution.
///
/// Durations are in milliseconds; causes that originate outside the library
/// are carried as their rendered message text.
#[derive(Debug)]
pub enum SandboxError {
    /// The execution exceeded the configured timeout (milliseconds).
    Timeout(u64),
    /// The execution exceeded memory limits.
    MemoryLimitExceeded(String),
    /// Failed to initialize the isolated runtime.
    RuntimeInit(String),
    /// Failed to load or instantiate the interpreter module.
    ModuleLoad(String),
    /// The guest code execution failed.
    ExecutionFailed(String),
    /// A guest-level exception was raised during execution.
    PythonException {
        /// The type of exception (e.g., "ValueError", "TypeError").
        exception_type: String,
        /// The exception message.
        message: String,
        /// The full traceback, if available.
        traceback: Option<String>,
    },
    /// I/O error during execution.
    Io(String),
    /// Configuration error.
    Config(String),
    /// The interpreter module file was not found.
    InterpreterNotFound(String),
    /// Execution ran out of fuel (instruction limit).
    OutOfFuel {
        /// Number of instructions consumed before running out.
        consumed: Option<u64>,
    },
}

impl SandboxError {
    /// Check if this error represents a timeout.
    pub fn is_timeout(&self) -> (r: bool)
        ensures
            r == (self matches SandboxError::Timeout(_)),
    {
        match self {
            SandboxError::Timeout(_) => true,
            _ => false,
        }
    }

    /// Check if this error represents a memory limit exceeded.
    pub fn is_memory_limit(&self) -> (r: bool)
        ensures
            r == (self matches SandboxError::MemoryLimitExceeded(_)),
    {
        match self {
            SandboxError::MemoryLimitExceeded(_) => true,
            _ => false,
        }
    }

    /// Check if this error represents a guest-level exception.
    pub fn is_python_exception(&self) -> (r: bool)
        ensures
            r == (self matches SandboxError::PythonException { .. }),
    {
        match self {
            SandboxError::PythonException { .. } => true,
            _ => false,
        }
    }

    /// Check if this error represents an out-of-fuel condition.
    pub fn is_out_of_fuel(&self) -> (r: bool)
        ensures
            r == (self matches SandboxError::OutOfFuel { .. }),
    {
        match self {
            SandboxError::OutOfFuel { .. } => true,
            _ => false,
        }
    }

    /// Create a guest exception error from stderr output.
    ///
    /// Attempts to parse the stderr to extract exception type, message, and
    /// traceback.
    pub fn from_python_stderr(stderr: &str) -> (r: Option<Self>)
        ensures
            parse_result_matches_spec(r, stderr@),
    {
        parse_python_exception(stderr)
    }
}

/// One line before a line feed, with a carriage return directly before the
/// line feed stripped.
pub open spec fn spec_strip_line(seg: Seq<char>) -> Seq<char> {
    if seg.len() > 0 && seg.last() == '\r' {
        seg.drop_last()
    } else {
        seg
    }
}

/// The lines of `s`: maximal line-feed-free runs, a carriage return before
/// each line feed stripped, a final empty segment after a trailing line feed
/// dropped.
pub open spec fn spec_lines(s: Seq<char>) -> Seq<Seq<char>>
    decreases s.len(),
{
    if s.len() == 0 {
        Seq::empty()
    } else {
        let i = spec_first_at(s, '\n');
        if 0 <= i < s.len() {
            seq![spec_strip_line(s.take(i))] + spec_lines(s.skip(i + 1))
        } else {
            seq![s]
        }
    }
}

/// The character after a matched exception name may be a colon, a space, a
/// line feed, or the end of the line.
pub open spec fn spec_boundary_ok(l: Seq<char>, j: int) -> bool {
    j >= l.len() || l[j] == ':' || l[j] == ' ' || l[j] == '\n'
}

/// Some occurrence of `pat` in `l` is directly followed by an accepted
/// boundary character or the end of the line.
pub open spec fn spec_suffix_signals(l: Seq<char>, pat: Seq<char>) -> bool {
    exists|i: int| #[trigger] spec_match_at(l, pat, i) && spec_boundary_ok(l, i + pat.len())
}

/// `l` starts with `pat`, directly followed by an accepted boundary
/// character or the end of the line.
pub open spec fn spec_prefix_signals(l: Seq<char>, pat: Seq<char>) -> bool {
    spec_match_at(l, pat, 0) && spec_boundary_ok(l, pat.len() as int)
}

/// A line that looks like an interpreter exception: it opens with an ASCII
/// uppercase letter and either carries one of the well-known name suffixes
/// somewhere, directly followed by an accepted boundary, or starts with one
/// of the standalone exception names.
pub open spec fn spec_looks_like_exception(l: Seq<char>) -> bool {
    &&& l.len() > 0
    &&& 'A' <= l[0] <= 'Z'
    &&& {
        ||| spec_suffix_signals(l, "Error"@)
        ||| spec_suffix_signals(l, "Exception"@)
        ||| spec_suffix_signals(l, "Warning"@)
        ||| spec_prefix_signals(l, "KeyboardInterrupt"@)
        ||| spec_prefix_signals(l, "SystemExit"@)
        ||| spec_prefix_signals(l, "StopIteration"@)
        ||| spec_prefix_signals(l, "GeneratorExit"@)
    }
}

/// A candidate exception line: non-empty, not indented, not part of a
/// traceback header, and it looks like an exception.
pub open spec fn spec_is_candidate(l: Seq<char>) -> bool {
    &&& l.len() > 0
    &&& l[0] != ' '
    &&& !spec_match_at(l, "Traceback"@, 0)
    &&& spec_looks_like_exception(l)
}

/// A line opening a traceback listing.
pub open spec fn spec_is_marker(l: Seq<char>) -> bool {
    spec_match_at(l, "Traceback (most recent call last):"@, 0)
}

/// Index of the last candidate exception line, if any.
pub open spec fn spec_last_candidate(lines: Seq<Seq<char>>) -> Option<int>
    decreases lines.len(),
{
    if lines.len() == 0 {
        None
    } else if spec_is_candidate(lines.last()) {
        Some(lines.len() - 1)
    } else {
        spec_last_candidate(lines.drop_last())
    }
}

/// Index of the last traceback marker line, if any.
pub open spec fn spec_last_marker(lines: Seq<Seq<char>>) -> Option<int>
    decreases lines.len(),
{
    if lines.len() == 0 {
        None
    } else if spec_is_marker(lines.last()) {
        Some(lines.len() - 1)
    } else {
        spec_last_marker(lines.drop_last())
    }
}

/// Lines `start` through `end` (inclusive), rejoined with line feeds.
pub open spec fn spec_join_lines(lines: Seq<Seq<char>>, start: int, end: int) -> Seq<char>
    decreases end - start,
{
    if !(0 <= start <= end < lines.len()) {
        Seq::empty()
    } else if start == end {
        lines[start]
    } else {
        lines[start] + seq!['\n'] + spec_join_lines(lines, start + 1, end)
    }
}

/// What the stderr classifier extracts from `s`: the exception type, the
/// message, and, where a traceback marker precedes the winning exception
/// line, the traceback text.
pub open spec fn spec_parse_exception(s: Seq<char>) -> Option<
    (Seq<char>, Seq<char>, Option<Seq<char>>),
> {
    let lines = spec_lines(s);
    match spec_last_candidate(lines) {
        None => None,
        Some(idx) => {
            let line = lines[idx];
            let c = spec_first_at(line, ':');
            let t = if c < line.len() {
                spec_trim(line.take(c))
            } else {
                spec_trim(line)
            };
            let m = if c < line.len() {
                spec_trim(line.skip(c + 1))
            } else {
                Seq::<char>::empty()
            };
            let tb = match spec_last_marker(lines) {
                Some(st) => if st <= idx {
                    Some(spec_join_lines(lines, st, idx))
                } else {
                    None
                },
                None => None,
            };
            Some((t, m, tb))
        },
    }
}

/// The executable parse result agrees with [`spec_parse_exception`].
pub open spec fn parse_result_matches_spec(r: Option<SandboxError>, s: Seq<char>) -> bool {
    match spec_parse_exception(s) {
        None => r is None,
        Some(p) => match r {
            Some(
                SandboxError::PythonException { exception_type, message, traceback },
            ) => {
                &&& exception_type@ == p.0
                &&& message@ == p.1
                &&& match (traceback, p.2) {
                    (Option::None, Option::None) => true,
                    (Option::Some(tb), Option::Some(q)) => tb@ == q,
                    _ => false,
                }
            },
            _ => false,
        },
    }
}

/// Split `cs` into the character ranges of its lines, matching
/// [`spec_lines`] entry for entry.
fn split_lines(cs: &Vec<char>) -> (r: Vec<(usize, usize)>)
    ensures
        r@.len() == spec_lines(cs@).len(),
        forall|k: int|
            0 <= k < r@.len() ==> {
                &&& #[trigger] r@[k].0 <= r@[k].1 <= cs@.len()
                &&& cs@.subrange(r@[k].0 as int, r@[k].1 as int) == spec_lines(cs@)[k]
            },
{
    let n = cs.len();
    let mut r: Vec<(usize, usize)> = Vec::new();
    let mut pos: usize = 0;
    proof {
        assert(cs@.skip(0) =~= cs@);
        assert(spec_lines(cs@).take(0) =~= Seq::<Seq<char>>::empty());
    }
    while pos < n
        invariant
            pos <= n,
            n == cs@.len(),
            forall|k: int|
                0 <= k < r@.len() ==> {
                    &&& #[trigger] r@[k].0 <= r@[k].1 <= cs@.len()
                    &&& cs@.subrange(r@[k].0 as int, r@[k].1 as int) == spec_lines(cs@)[k]
                },
            spec_lines(cs@) =~= spec_lines(cs@).take(r@.len() as int) + spec_lines(
                cs@.skip(pos as int),
            ),
            spec_lines(cs@).len() >= r@.len(),
        decreases n - pos,
    {
        let j = find_char_in(cs, pos, n, '\n');
        let ghost rest = cs@.skip(pos as int);
        proof {
            assert forall|m: int| 0 <= m < j - pos implies rest[m] != '\n' by {
                assert(rest[m] == cs@[pos + m]);
            }
            if j < n {
                assert(rest[j - pos] == cs@[j as int]);
            }
            crate::text::lemma_first_at_unique(rest, '\n', j - pos);
        }
        if j == n {
            // final segment, no line feed: one line, kept as is
            proof {
                assert(spec_lines(rest) =~= seq![rest]);
                assert(cs@.subrange(pos as int, n as int) =~= rest);
                let old_len = r@.len() as int;
                assert(spec_lines(cs@)[old_len] == rest);
            }
            r.push((pos, n));
            pos = n;
            proof {
                assert(spec_lines(cs@.skip(pos as int)) =~= Seq::<Seq<char>>::empty());
                assert(spec_lines(cs@) =~= spec_lines(cs@).take(r@.len() as int) + spec_lines(
                    cs@.skip(pos as int),
                ));
            }
        } else {
            let end: usize = if j > pos && cs[j - 1] == '\r' {
                j - 1
            } else {
                j
            };
            proof {
                let seg = rest.take(j - pos);
                assert(seg =~= cs@.subrange(pos as int, j as int));
                assert(spec_lines(rest) =~= seq![spec_strip_line(seg)] + spec_lines(
                    rest.skip(j - pos + 1),
                ));
                assert(rest.skip(j - pos + 1) =~= cs@.skip(j + 1));
                if j > pos && cs@[j - 1] == '\r' {
                    assert(seg.last() == cs@[j - 1]);
                    assert(spec_strip_line(seg) =~= cs@.subrange(pos as int, j - 1));
                } else {
                    if seg.len() > 0 {
                        assert(seg.last() == cs@[j - 1]);
                    }
                    assert(spec_strip_line(seg) =~= cs@.subrange(pos as int, j as int));
                }
                let old_len = r@.len() as int;
                assert(spec_lines(cs@)[old_len] == spec_strip_line(seg));
            }
            r.push((pos, end));
            pos = j + 1;
            proof {
                assert(spec_lines(cs@) =~= spec_lines(cs@).take(r@.len() as int) + spec_lines(
                    cs@.skip(pos as int),
                ));
            }
        }
    }
    proof {
        assert(spec_lines(cs@.skip(pos as int)) =~= Seq::<Seq<char>>::empty());
        assert(spec_lines(cs@) =~= spec_lines(cs@).take(r@.len() as int));
    }
    r
}

/// Check whether some occurrence of `pat` in `cs[a..b]` is followed by an
/// accepted boundary.
fn suffix_signals(cs: &Vec<char>, a: usize, b: usize, pat: &Vec<char>) -> (r: bool)
    requires
        a <= b <= cs.len(),
        pat@.len() > 0,
    ensures
        r == spec_suffix_signals(cs@.subrange(a as int, b as int), pat@),
{
    let ghost l = cs@.subrange(a as int, b as int);
    if pat.len() > b - a {
        proof {
            assert forall|j: int| !spec_match_at(l, pat@, j) by {}
        }
        return false;
    }
    let last = b - a - pat.len();
    let mut i: usize = 0;
    while i <= last
        invariant
            a <= b <= cs.len(),
            0 < pat@.len() <= b - a,
            last == b - a - pat@.len(),
            i <= last + 1,
            l == cs@.subrange(a as int, b as int),
            forall|j: int|
                0 <= j < i ==> !(#[trigger] spec_match_at(l, pat@, j) && spec_boundary_ok(
                    l,
                    j + pat@.len(),
                )),
        decreases last + 1 - i,
    {
        if match_at(cs, a, b, pat, a + i) {
            let after = a + i + pat.len();
            let ok = after >= b || cs[after] == ':' || cs[after] == ' ' || cs[after] == '\n';
            proof {
                if after < b {
                    assert(l[i + pat@.len()] == cs@[after as int]);
                }
                assert(ok == spec_boundary_ok(l, i + pat@.len()));
            }
            if ok {
                return true;
            }
        }
        i = i + 1;
    }
    proof {
        assert forall|j: int|
            !(#[trigger] spec_match_at(l, pat@, j) && spec_boundary_ok(l, j + pat@.len())) by {
            if j > last {
                assert(j + pat@.len() > l.len());
            }
        }
    }
    false
}

/// Check whether `cs[a..b]` starts with `pat`, followed by an accepted
/// boundary.
fn prefix_signals(cs: &Vec<char>, a: usize, b: usize, pat: &Vec<char>) -> (r: bool)
    requires
        a <= b <= cs.len(),
    ensures
        r == spec_prefix_signals(cs@.subrange(a as int, b as int), pat@),
{
    let ghost l = cs@.subrange(a as int, b as int);
    if !match_at(cs, a, b, pat, a) {
        return false;
    }
    let after = a + pat.len();
    let ok = after >= b || cs[after] == ':' || cs[after] == ' ' || cs[after] == '\n';
    proof {
        if after < b {
            assert(l[pat@.len() as int] == cs@[after as int]);
        }
    }
    ok
}

/// Check whether the line `cs[a..b]` looks like an interpreter exception.
fn looks_like_range(cs: &Vec<char>, a: usize, b: usize) -> (r: bool)
    requires
        a <= b <= cs.len(),
    ensures
        r == spec_looks_like_exception(cs@.subrange(a as int, b as int)),
{
    let ghost l = cs@.subrange(a as int, b as int);
    if a == b {
        return false;
    }
    let c0 = cs[a];
    proof {
        assert(l[0] == cs@[a as int]);
    }
    if !('A' <= c0 && c0 <= 'Z') {
        return false;
    }
    let pat_error = chars_of("Error");
    let pat_exception = chars_of("Exception");
    let pat_warning = chars_of("Warning");
    proof {
        reveal_strlit("Error");
        reveal_strlit("Exception");
        reveal_strlit("Warning");
    }
    if suffix_signals(cs, a, b, &pat_error) {
        return true;
    }
    if suffix_signals(cs, a, b, &pat_exception) {
        return true;
    }
    if suffix_signals(cs, a, b, &pat_warning) {
        return true;
    }
    let pat_ki = chars_of("KeyboardInterrupt");
    let pat_se = chars_of("SystemExit");
    let pat_si = chars_of("StopIteration");
    let pat_ge = chars_of("GeneratorExit");
    if prefix_signals(cs, a, b, &pat_ki) {
        return true;
    }
    if prefix_signals(cs, a, b, &pat_se) {
        return true;
    }
    if prefix_signals(cs, a, b, &pat_si) {
        return true;
    }
    prefix_signals(cs, a, b, &pat_ge)
}

/// Check whether the line `cs[a..b]` is a candidate exception line.
fn is_candidate_range(cs: &Vec<char>, a: usize, b: usize) -> (r: bool)
    requires
        a <= b <= cs.len(),
    ensures
        r == spec_is_candidate(cs@.subrange(a as int, b as int)),
{
    let ghost l = cs@.subrange(a as int, b as int);
    if a == b {
        return false;
    }
    proof {
        assert(l[0] == cs@[a as int]);
    }
    if cs[a] == ' ' {
        return false;
    }
    let pat_tb = chars_of("Traceback");
    if match_at(cs, a, b, &pat_tb, a) {
        return false;
    }
    looks_like_range(cs, a, b)
}

/// Check whether the line `cs[a..b]` opens a traceback listing.
fn is_marker_range(cs: &Vec<char>, a: usize, b: usize) -> (r: bool)
    requires
        a <= b <= cs.len(),
    ensures
        r == spec_is_marker(cs@.subrange(a as int, b as int)),
{
    let pat = chars_of("Traceback (most recent call last):");
    match_at(cs, a, b, &pat, a)
}

/// Check whether a line looks like an interpreter exception, such as
/// `"ValueError: bad value"` or `"StopIteration"`.
pub fn looks_like_exception(line: &str) -> (r: bool)
    ensures
        r == spec_looks_like_exception(line@),
{
    let cs = chars_of(line);
    let n = cs.len();
    let r = looks_like_range(&cs, 0, n);
    proof {
        assert(cs@.subrange(0, n as int) =~= line@);
    }
    r
}

/// Parse a guest exception from stderr output.
///
/// Scans every line; the last line that looks like an exception wins.  The
/// winning line is split at its first colon into exception type and message,
/// both trimmed.  Where a traceback marker line precedes the winning line,
/// the lines from the marker through the winner, rejoined with line feeds,
/// form the traceback.  Returns `None` when no line looks like an exception.
#[verifier::rlimit(100)]
pub fn parse_python_exception(stderr: &str) -> (r: Option<SandboxError>)
    ensures
        parse_result_matches_spec(r, stderr@),
{
    let cs = chars_of(stderr);
    let ranges = split_lines(&cs);
    let ghost lines = spec_lines(cs@);
    let nl = ranges.len();

    let mut cand: Option<usize> = None;
    let mut marker: Option<usize> = None;
    let mut k: usize = 0;
    while k < nl
        invariant
            nl == ranges@.len(),
            lines == spec_lines(cs@),
            nl == lines.len(),
            k <= nl,
            forall|m: int|
                0 <= m < nl ==> {
                    &&& #[trigger] ranges@[m].0 <= ranges@[m].1 <= cs@.len()
                    &&& cs@.subrange(ranges@[m].0 as int, ranges@[m].1 as int) == lines[m]
                },
            spec_last_candidate(lines.take(k as int)) == match cand {
                Some(i) => Some(i as int),
                None => None::<int>,
            },
            spec_last_marker(lines.take(k as int)) == match marker {
                Some(i) => Some(i as int),
                None => None::<int>,
            },
            cand matches Some(i) ==> i < k,
            marker matches Some(i) ==> i < k,
        decreases nl - k,
    {
        let (a, b) = ranges[k];
        if is_candidate_range(&cs, a, b) {
            cand = Some(k);
        }
        if is_marker_range(&cs, a, b) {
            marker = Some(k);
        }
        proof {
            let t = lines.take(k + 1);
            assert(t.last() == lines[k as int]);
            assert(t.drop_last() =~= lines.take(k as int));
        }
        k = k + 1;
    }
    proof {
        assert(lines.take(nl as int) =~= lines);
    }

    let idx = match cand {
        None => {
            return None;
        },
        Some(i) => i,
    };
    let (wa, wb) = ranges[idx];
    let ghost line = lines[idx as int];

    // split the winning line at its first colon
    let c = find_char_in(&cs, wa, wb, ':');
    proof {
        let sub = cs@.subrange(wa as int, wb as int);
        assert(sub =~= line);
        crate::text::lemma_first_at(line, ':');
    }
    let (exception_type, message): (String, String) = if c < wb {
        let (t0, t1) = trim_range(&cs, wa, c);
        let (m0, m1) = trim_range(&cs, c + 1, wb);
        proof {
            assert(cs@.subrange(wa as int, c as int) =~= line.take(c - wa));
            assert(cs@.subrange(c + 1, wb as int) =~= line.skip(c - wa + 1));
        }
        let t = stderr.substring_char(t0, t1).to_owned();
        let m = stderr.substring_char(m0, m1).to_owned();
        proof {
            assert(stderr@.subrange(t0 as int, t1 as int) == cs@.subrange(t0 as int, t1 as int));
            assert(stderr@.subrange(m0 as int, m1 as int) == cs@.subrange(m0 as int, m1 as int));
        }
        (t, m)
    } else {
        let (t0, t1) = trim_range(&cs, wa, wb);
        proof {
            assert(cs@.subrange(wa as int, wb as int) =~= line);
        }
        let t = stderr.substring_char(t0, t1).to_owned();
        proof {
            assert(stderr@.subrange(t0 as int, t1 as int) == cs@.subrange(t0 as int, t1 as int));
        }
        let m = String::new();
        (t, m)
    };

    // assemble the traceback where a marker precedes the winning line
    let traceback: Option<String> = match marker {
        Some(st) if st <= idx => {
            let mut tb = String::new();
            let mut j = st;
            proof {
                assert(tb@ + spec_join_lines(lines, st as int, idx as int) == spec_join_lines(
                    lines,
                    st as int,
                    idx as int,
                ));
            }
            while j < idx
                invariant
                    st <= j <= idx < nl,
                    nl == ranges@.len(),
                    nl == lines.len(),
                    lines == spec_lines(cs@),
                    cs@ == stderr@,
                    forall|m: int|
                        0 <= m < nl ==> {
                            &&& #[trigger] ranges@[m].0 <= ranges@[m].1 <= cs@.len()
                            &&& cs@.subrange(ranges@[m].0 as int, ranges@[m].1 as int) == lines[m]
                        },
                    tb@ + spec_join_lines(lines, j as int, idx as int) == spec_join_lines(
                        lines,
                        st as int,
                        idx as int,
                    ),
                decreases idx - j,
            {
                let (la, lb) = ranges[j];
                let piece = stderr.substring_char(la, lb);
                tb.append(piece);
                tb.append("\n");
                proof {
                    reveal_strlit("\n");
                    assert("\n"@ =~= seq!['\n']);
                    assert(spec_join_lines(lines, j as int, idx as int) == lines[j as int] + seq![
                        '\n',
                    ] + spec_join_lines(lines, j + 1, idx as int));
                    assert(tb@ + spec_join_lines(lines, j + 1, idx as int) == spec_join_lines(
                        lines,
                        st as int,
                        idx as int,
                    ));
                }
                j = j + 1;
            }
            let (la, lb) = ranges[idx];
            let piece = stderr.substring_char(la, lb);
            tb.append(piece);
            proof {
                assert(spec_join_lines(lines, idx as int, idx as int) == lines[idx as int]);
            }
            Some(tb)
        },
        _ => None,
    };

    Some(
        SandboxError::PythonException {
            exception_type,
            message,
            traceback,
        },
    )
}

} // verus!
