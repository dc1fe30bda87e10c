//! A mathematical model of line structure: text is split at `'\n'`
//! terminators, a terminator of the form `"\r\n"` does not leave its
//! carriage return on the line, and a trailing terminator does not open a
//! final empty line.
use vstd::prelude::*;
use vstd::string::StrSliceExecFns;

verus! {

/// Index of the first `'\n'` in `s`, or `s.len()` when there is none.
pub open spec fn first_nl(s: Seq<char>) -> nat
    decreases s.len(),
{
    if s.len() == 0 {
        0
    } else if s[0] == '\n' {
        0
    } else {
        1 + first_nl(s.drop_first())
    }
}

pub proof fn lemma_first_nl(s: Seq<char>)
    ensures
        first_nl(s) <= s.len(),
        first_nl(s) < s.len() ==> s[first_nl(s) as int] == '\n',
        forall|j: int| 0 <= j < first_nl(s) ==> s[j] != '\n',
    decreases s.len(),
{
    if s.len() == 0 {
    } else if s[0] == '\n' {
    } else {
        lemma_first_nl(s.drop_first());
        assert forall|j: int| 0 <= j < first_nl(s) implies s[j] != '\n' by {
            if j > 0 {
                assert(s.drop_first()[j - 1] == s[j]);
            }
        }
    }
}

/// The segments of `s` between its newlines, the terminators themselves
/// excluded. There is always one segment more than there are newlines;
/// in particular a final `'\n'` is followed by an empty segment.
pub open spec fn raw_split(s: Seq<char>) -> Seq<Seq<char>>
    decreases s.len(),
{
    let k = first_nl(s);
    if k >= s.len() {
        seq![s]
    } else {
        seq![s.subrange(0, k as int)] + raw_split(s.subrange(k as int + 1, s.len() as int))
    }
}

/// A segment that ended at a `'\n'` loses a carriage return standing
/// directly before that terminator.
pub open spec fn strip_cr(l: Seq<char>) -> Seq<char> {
    if l.len() > 0 && l[l.len() - 1] == '\r' {
        l.drop_last()
    } else {
        l
    }
}

/// The lines of `s`: every terminated segment with its trailing carriage
/// return stripped, plus the text after the last terminator when that text
/// is not empty.
pub open spec fn lines_of(s: Seq<char>) -> Seq<Seq<char>> {
    let raw = raw_split(s);
    let terminated = raw.drop_last().map_values(|l: Seq<char>| strip_cr(l));
    if raw.last().len() == 0 {
        terminated
    } else {
        terminated.push(raw.last())
    }
}

pub proof fn lemma_raw_split_at(s: Seq<char>, k: int)
    requires
        0 <= k < s.len(),
        s[k] == '\n',
        forall|j: int| 0 <= j < k ==> s[j] != '\n',
    ensures
        raw_split(s) == seq![s.subrange(0, k)] + raw_split(s.subrange(k + 1, s.len() as int)),
{
    lemma_first_nl(s);
    if first_nl(s) < k {
        assert(s[first_nl(s) as int] == '\n');
        assert(false);
    }
    if first_nl(s) > k {
        assert(s[k] != '\n');
        assert(false);
    }
}

pub proof fn lemma_raw_split_whole(s: Seq<char>)
    requires
        forall|j: int| 0 <= j < s.len() ==> s[j] != '\n',
    ensures
        raw_split(s) == seq![s],
{
    lemma_first_nl(s);
    if first_nl(s) < s.len() {
        assert(s[first_nl(s) as int] == '\n');
        assert(false);
    }
}

/// The forbidden text stands somewhere in the line.
pub open spec fn contains_bad(l: Seq<char>) -> bool {
    exists|i: int|
        0 <= i && i + 3 <= l.len() && #[trigger] l[i] == 'b' && l[i + 1] == 'a' && l[i + 2] == 'd'
}

/// Whether `l` contains the forbidden text "bad".
pub fn line_contains_bad(l: &str) -> (r: bool)
    ensures
        r == contains_bad(l@),
{
    let n = l.unicode_len();
    if n < 3 {
        return false;
    }
    let mut i: usize = 0;
    while i <= n - 3
        invariant
            3 <= n == l@.len(),
            i <= n - 2,
            forall|j: int|
                0 <= j < i ==> !(#[trigger] l@[j] == 'b' && l@[j + 1] == 'a' && l@[j + 2] == 'd'),
        decreases n - i,
    {
        if l.get_char(i) == 'b' && l.get_char(i + 1) == 'a' && l.get_char(i + 2) == 'd' {
            return true;
        }
        i += 1;
    }
    false
}

/// Removes a trailing carriage return, as `strip_cr` describes.
fn strip_trailing_cr<'a>(l: &'a str) -> (r: &'a str)
    ensures
        r@ == strip_cr(l@),
{
    let n = l.unicode_len();
    if n > 0 && l.get_char(n - 1) == '\r' {
        let r = l.substring_char(0, n - 1);
        proof {
            assert(r@ =~= strip_cr(l@));
        }
        r
    } else {
        l
    }
}

/// Splits `s` into its lines, exactly as `lines_of` describes them.
pub fn split_lines<'a>(s: &'a str) -> (lines: Vec<&'a str>)
    ensures
        lines.deep_view() == lines_of(s@),
{
    let n = s.unicode_len();
    let mut raw: Vec<&'a str> = Vec::new();
    let mut start: usize = 0;
    let mut i: usize = 0;
    proof {
        assert(s@.subrange(0, n as int) =~= s@);
        assert(raw.deep_view() + raw_split(s@.subrange(0, n as int)) =~~= raw_split(s@));
    }
    while i < n
        invariant
            start <= i <= n,
            n == s@.len(),
            raw.deep_view() + raw_split(s@.subrange(start as int, n as int)) == raw_split(s@),
            forall|j: int| start <= j < i ==> s@[j] != '\n',
        decreases n - i,
    {
        if s.get_char(i) == '\n' {
            let seg = s.substring_char(start, i);
            let ghost prev = raw.deep_view();
            proof {
                let tail = s@.subrange(start as int, n as int);
                lemma_raw_split_at(tail, i - start);
                assert(tail.subrange(0, i - start) =~= s@.subrange(start as int, i as int));
                assert(tail.subrange(i - start + 1, tail.len() as int) =~= s@.subrange(
                    i as int + 1,
                    n as int,
                ));
            }
            raw.push(seg);
            proof {
                assert(raw.deep_view() =~~= prev.push(seg@));
                assert(prev.push(seg@) + raw_split(s@.subrange(i as int + 1, n as int)) =~~= prev
                    + raw_split(s@.subrange(start as int, n as int)));
            }
            start = i + 1;
        }
        i += 1;
    }
    let last = s.substring_char(start, n);
    let ghost prev = raw.deep_view();
    proof {
        lemma_raw_split_whole(s@.subrange(start as int, n as int));
    }
    raw.push(last);
    proof {
        assert(raw.deep_view() =~~= prev.push(last@));
        assert(prev.push(last@) =~~= prev + raw_split(s@.subrange(start as int, n as int)));
    }

    let ghost rawv = raw.deep_view();
    let m = raw.len();
    proof {
        assert(m == rawv.len() && m >= 1);
    }
    let mut lines: Vec<&'a str> = Vec::new();
    let mut j: usize = 0;
    proof {
        assert(lines.deep_view() =~~= Seq::new(0, |idx: int| strip_cr(rawv[idx])));
    }
    while j + 1 < m
        invariant
            m == raw.len(),
            rawv == raw.deep_view(),
            rawv == raw_split(s@),
            m == rawv.len() >= 1,
            j <= m - 1,
            lines.deep_view() == Seq::new(j as nat, |idx: int| strip_cr(rawv[idx])),
        decreases m - j,
    {
        let stripped = strip_trailing_cr(raw[j]);
        let ghost lprev = lines.deep_view();
        lines.push(stripped);
        proof {
            assert(raw@[j as int]@ == rawv[j as int]);
            assert(lines.deep_view() =~~= lprev.push(stripped@));
            assert(lprev.push(stripped@) =~~= Seq::new(
                j as nat + 1,
                |idx: int| strip_cr(rawv[idx]),
            ));
        }
        j += 1;
    }
    proof {
        assert(lines.deep_view() =~~= rawv.drop_last().map_values(|l: Seq<char>| strip_cr(l)));
    }
    let lastseg = raw[m - 1];
    if lastseg.unicode_len() > 0 {
        let ghost lprev = lines.deep_view();
        lines.push(lastseg);
        proof {
            assert(lines.deep_view() =~~= lprev.push(lastseg@));
        }
    }
    proof {
        assert(raw@[m - 1]@ == rawv[m - 1]);
        assert(lines.deep_view() =~~= lines_of(s@));
    }
    lines
}

} // verus!
