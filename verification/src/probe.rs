use vstd::prelude::*;

verus! {

/// ASCII whitespace as the probe output may carry it: the lookup tool
/// prints the binary's path followed by a line terminator.
pub open spec fn spec_is_ws(c: char) -> bool {
    c == ' ' || c == '\t' || c == '\n' || c == '\r'
}

/// The marker locating the lookup tool's binary inside its installation
/// prefix.
pub open spec fn spec_bin_marker() -> Seq<char> {
    "/bin/openconnect"@
}

/// Path of the posture-report helper script relative to the same
/// installation prefix.
pub open spec fn spec_hip_suffix() -> Seq<char> {
    "/libexec/openconnect/hipreport.sh"@
}

/// The sequence with its leading whitespace removed.
pub open spec fn spec_trim_front(s: Seq<char>) -> Seq<char>
    decreases s.len(),
{
    if s.len() > 0 && spec_is_ws(s[0]) {
        spec_trim_front(s.drop_first())
    } else {
        s
    }
}

/// The sequence with its trailing whitespace removed.
pub open spec fn spec_trim_back(s: Seq<char>) -> Seq<char>
    decreases s.len(),
{
    if s.len() > 0 && spec_is_ws(s.last()) {
        spec_trim_back(s.drop_last())
    } else {
        s
    }
}

/// The sequence with whitespace removed from both ends.
pub open spec fn spec_trimmed(s: Seq<char>) -> Seq<char> {
    spec_trim_back(spec_trim_front(s))
}

/// Whether the binary marker occurs in `t` starting at position `i`.
pub open spec fn spec_marker_at(t: Seq<char>, i: int) -> bool {
    &&& 0 <= i
    &&& i + spec_bin_marker().len() <= t.len()
    &&& t.subrange(i, i + spec_bin_marker().len() as int) == spec_bin_marker()
}

proof fn lemma_trim_front_is_subrange(s: Seq<char>, lo: int)
    requires
        0 <= lo <= s.len(),
        forall|k: int| 0 <= k < lo ==> spec_is_ws(s[k]),
        lo == s.len() || !spec_is_ws(s[lo]),
    ensures
        spec_trim_front(s) == s.subrange(lo, s.len() as int),
    decreases lo,
{
    if lo == 0 {
        assert(s.subrange(0, s.len() as int) =~= s);
    } else {
        lemma_trim_front_is_subrange(s.drop_first(), lo - 1);
        assert(s.drop_first().subrange(lo - 1, s.drop_first().len() as int) =~= s.subrange(
            lo,
            s.len() as int,
        ));
    }
}

proof fn lemma_trim_back_is_subrange(s: Seq<char>, hi: int)
    requires
        0 <= hi <= s.len(),
        forall|k: int| hi <= k < s.len() ==> spec_is_ws(s[k]),
        hi == 0 || !spec_is_ws(s[hi - 1]),
    ensures
        spec_trim_back(s) == s.subrange(0, hi),
    decreases s.len() - hi,
{
    if hi == s.len() {
        assert(s.subrange(0, s.len() as int) =~= s);
    } else {
        lemma_trim_back_is_subrange(s.drop_last(), hi);
        assert(s.drop_last().subrange(0, hi) =~= s.subrange(0, hi));
    }
}

/// The binary marker as a character string.
fn bin_marker() -> (s: &'static str)
    ensures
        s@ == spec_bin_marker(),
{
    "/bin/openconnect"
}

/// Whether `c` is whitespace as the probe understands it.
fn is_ws_char(c: char) -> (b: bool)
    ensures
        b == spec_is_ws(c),
{
    c == ' ' || c == '\t' || c == '\n' || c == '\r'
}

/// Whether `pat` occurs in `s` starting at character position `start`.
fn str_eq_range(s: &str, start: usize, pat: &str) -> (b: bool)
    requires
        start + pat@.len() <= s@.len(),
        s@.len() <= usize::MAX,
    ensures
        b == (s@.subrange(start as int, start + pat@.len()) == pat@),
{
    let m = pat.unicode_len();
    let mut k: usize = 0;
    while k < m
        invariant
            k <= m,
            m == pat@.len(),
            start + m <= s@.len() <= usize::MAX,
            forall|j: int| 0 <= j < k ==> s@[start + j] == pat@[j],
        decreases m - k,
    {
        if s.get_char(start + k) != pat.get_char(k) {
            proof {
                assert(s@.subrange(start as int, start + pat@.len())[k as int] == s@[start + k]);
            }
            return false;
        }
        k += 1;
    }
    proof {
        assert(s@.subrange(start as int, start + pat@.len()) =~= pat@);
    }
    true
}

/// Derive the posture-report helper path from the probe's raw output: the
/// path the lookup tool printed for the binary, surrounding whitespace
/// ignored. When the trimmed output holds the binary marker, the result is
/// the prefix before the marker's last occurrence with the helper suffix
/// appended; when the marker never occurs (in particular when the output
/// is empty), there is no result. The caller still checks that the derived
/// file exists before using it.
pub fn derive_csd_wrapper_path(which_output: &str) -> (r: Option<String>)
    ensures
        ({
            let t = spec_trimmed(which_output@);
            match r {
                None => forall|i: int| !spec_marker_at(t, i),
                Some(p) => exists|i: int|
                    {
                        &&& #[trigger] spec_marker_at(t, i)
                        &&& (forall|j: int| j > i ==> !spec_marker_at(t, j))
                        &&& p@ == t.subrange(0, i) + spec_hip_suffix()
                    },
            }
        }),
{
    let n = which_output.unicode_len();
    let mut lo: usize = 0;
    while lo < n && is_ws_char(which_output.get_char(lo))
        invariant
            lo <= n,
            n == which_output@.len(),
            forall|k: int| 0 <= k < lo ==> spec_is_ws(which_output@[k]),
        decreases n - lo,
    {
        lo += 1;
    }
    let mut hi: usize = n;
    while hi > lo && is_ws_char(which_output.get_char(hi - 1))
        invariant
            lo <= hi <= n,
            n == which_output@.len(),
            forall|k: int| hi <= k < n ==> spec_is_ws(which_output@[k]),
        decreases hi,
    {
        hi -= 1;
    }
    let ghost t = spec_trimmed(which_output@);
    proof {
        lemma_trim_front_is_subrange(which_output@, lo as int);
        let u = which_output@.subrange(lo as int, n as int);
        assert forall|k: int| (hi - lo) <= k < u.len() implies spec_is_ws(u[k]) by {
            assert(u[k] == which_output@[k + lo]);
        }
        if hi > lo {
            assert(u[hi - lo - 1] == which_output@[hi - 1]);
        }
        lemma_trim_back_is_subrange(u, hi - lo);
        assert(u.subrange(0, hi - lo) =~= which_output@.subrange(lo as int, hi as int));
    }
    let trimmed = which_output.substring_char(lo, hi);
    let marker = bin_marker();
    let m = marker.unicode_len();
    let tlen = hi - lo;
    if tlen < m {
        return None;
    }
    let mut i: usize = tlen - m;
    let mut found: Option<usize> = None;
    loop
        invariant_except_break
            found is None,
            i <= tlen - m,
            m == spec_bin_marker().len(),
            marker@ == spec_bin_marker(),
            tlen == t.len(),
            trimmed@ == t,
            forall|j: int| j > i ==> !spec_marker_at(t, j),
        ensures
            (match found {
                Some(fi) => {
                    &&& spec_marker_at(t, fi as int)
                    &&& fi <= tlen - m
                    &&& forall|j: int| j > fi ==> !spec_marker_at(t, j)
                },
                None => forall|j: int| !spec_marker_at(t, j),
            }),
            tlen == t.len(),
            trimmed@ == t,
        decreases i,
    {
        if str_eq_range(trimmed, i, marker) {
            found = Some(i);
            break;
        }
        if i == 0 {
            break;
        }
        i -= 1;
    }
    match found {
        Some(fi) => {
            let base = trimmed.substring_char(0, fi);
            let mut p = base.to_owned();
            p.append("/libexec/openconnect/hipreport.sh");
            Some(p)
        },
        None => None,
    }
}

} // verus!
