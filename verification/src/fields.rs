//! Splitting text into fields, trimming white space, and searching for
//! substrings, on character sequences.

use vstd::prelude::*;
use crate::text::{find_char, find_char_exec, is_first_index, lemma_find_char_is_first, slice_chars};

verus! {

/// The fields of `s` separated by `sep`, as `str::split` gives them (an empty
/// text has one empty field).
pub open spec fn split_on(s: Seq<char>, sep: char) -> Seq<Seq<char>>
    decreases s.len(),
{
    let i = find_char(s, sep) as int;
    if i >= s.len() {
        seq![s]
    } else {
        seq![s.take(i)] + split_on(s.skip(i + 1), sep)
    }
}

/// Splits `s` at every `sep`.
pub fn split_chars(s: &Vec<char>, sep: char) -> (r: Vec<Vec<char>>)
    ensures
        r@.map_values(|v: Vec<char>| v@) == split_on(s@, sep),
    decreases s@.len(),
{
    let i = find_char_exec(s, sep);
    let mut out: Vec<Vec<char>> = Vec::new();
    if i >= s.len() {
        let whole = slice_chars(s, 0, s.len());
        assert(whole@ =~= s@);
        out.push(whole);
        assert(out@.map_values(|v: Vec<char>| v@) =~= seq![s@]);
        out
    } else {
        let head = slice_chars(s, 0, i);
        let tail = slice_chars(s, i + 1, s.len());
        assert(head@ =~= s@.take(i as int));
        assert(tail@ =~= s@.skip(i + 1));
        let rest = split_chars(&tail, sep);
        out.push(head);
        let mut k: usize = 0;
        while k < rest.len()
            invariant
                k <= rest.len(),
                out@.len() == k + 1,
                out@[0]@ == s@.take(i as int),
                forall|q: int| 1 <= q <= k ==> (#[trigger] out@[q])@ == rest@[q - 1]@,
            decreases rest.len() - k,
        {
            out.push(slice_chars(&rest[k], 0, rest[k].len()));
            assert(out@[k + 1]@ =~= rest@[k as int]@);
            k = k + 1;
        }
        let ghost rv = rest@.map_values(|v: Vec<char>| v@);
        let ghost ov = out@.map_values(|v: Vec<char>| v@);
        assert(rv == split_on(tail@, sep));
        assert forall|q: int| 0 <= q < ov.len() implies #[trigger] ov[q] == (seq![s@.take(i as int)] + rv)[q] by {
            if q > 0 {
                assert(out@[q]@ == rest@[q - 1]@);
            }
        }
        assert(ov =~= seq![s@.take(i as int)] + rv);
        out
    }
}

/// White space as `char::is_whitespace` defines it (the Unicode `White_Space`
/// property).
pub open spec fn is_white(c: char) -> bool {
    let u = c as u32;
    (0x9 <= u && u <= 0xD) || u == 0x20 || u == 0x85 || u == 0xA0 || u == 0x1680 || (0x2000 <= u
        && u <= 0x200A) || u == 0x2028 || u == 0x2029 || u == 0x202F || u == 0x205F || u == 0x3000
}

/// Whether `c` is white space.
pub fn is_whitespace_char(c: char) -> (r: bool)
    ensures
        r == is_white(c),
{
    let u = c as u32;
    (0x9 <= u && u <= 0xD) || u == 0x20 || u == 0x85 || u == 0xA0 || u == 0x1680 || (0x2000 <= u
        && u <= 0x200A) || u == 0x2028 || u == 0x2029 || u == 0x202F || u == 0x205F || u == 0x3000
}

/// `s` without its leading white space.
pub open spec fn trim_start(s: Seq<char>) -> Seq<char>
    decreases s.len(),
{
    if s.len() > 0 && is_white(s[0]) {
        trim_start(s.drop_first())
    } else {
        s
    }
}

/// `s` without its trailing white space.
pub open spec fn trim_end(s: Seq<char>) -> Seq<char>
    decreases s.len(),
{
    if s.len() > 0 && is_white(s.last()) {
        trim_end(s.drop_last())
    } else {
        s
    }
}

/// `s` without leading and trailing white space, as `str::trim` gives it.
pub open spec fn trim(s: Seq<char>) -> Seq<char> {
    trim_end(trim_start(s))
}

proof fn lemma_trim_start_skip(s: Seq<char>, i: int)
    requires
        0 <= i <= s.len(),
        forall|k: int| 0 <= k < i ==> is_white(#[trigger] s[k]),
    ensures
        trim_start(s) == trim_start(s.skip(i)),
    decreases i,
{
    if i > 0 {
        assert(s.skip(1) =~= s.drop_first());
        assert forall|k: int| 0 <= k < i - 1 implies is_white(#[trigger] s.drop_first()[k]) by {
            assert(s.drop_first()[k] == s[k + 1]);
        }
        lemma_trim_start_skip(s.drop_first(), i - 1);
        assert(s.drop_first().skip(i - 1) =~= s.skip(i));
    } else {
        assert(s.skip(0) =~= s);
    }
}

proof fn lemma_trim_end_take(s: Seq<char>, j: int)
    requires
        0 <= j <= s.len(),
        forall|k: int| j <= k < s.len() ==> is_white(#[trigger] s[k]),
    ensures
        trim_end(s) == trim_end(s.take(j)),
    decreases s.len() - j,
{
    if j < s.len() {
        assert(s.drop_last().take(j) =~= s.take(j));
        assert forall|k: int| j <= k < s.drop_last().len() implies is_white(
            #[trigger] s.drop_last()[k],
        ) by {
            assert(s.drop_last()[k] == s[k]);
        }
        assert(is_white(s[s.len() - 1]));
        lemma_trim_end_take(s.drop_last(), j);
    } else {
        assert(s.take(j) =~= s);
    }
}

/// `s` with leading and trailing white space removed.
pub fn trim_chars(s: &Vec<char>) -> (r: Vec<char>)
    ensures
        r@ == trim(s@),
{
    let mut i: usize = 0;
    while i < s.len() && is_whitespace_char(s[i])
        invariant
            i <= s.len(),
            forall|k: int| 0 <= k < i ==> is_white(#[trigger] s@[k]),
        decreases s.len() - i,
    {
        i = i + 1;
    }
    proof {
        lemma_trim_start_skip(s@, i as int);
    }
    let mut j: usize = s.len();
    while j > i && is_whitespace_char(s[j - 1])
        invariant
            i <= j <= s.len(),
            forall|k: int| j <= k < s.len() ==> is_white(#[trigger] s@[k]),
        decreases j,
    {
        j = j - 1;
    }
    let r = slice_chars(s, i, j);
    proof {
        let t = s@.skip(i as int);
        assert(trim_start(t) == t) by {
            if t.len() > 0 {
                assert(t[0] == s@[i as int]);
            }
        }
        assert forall|k: int| j - i <= k < t.len() implies is_white(#[trigger] t[k]) by {
            assert(t[k] == s@[i + k]);
        }
        lemma_trim_end_take(t, j - i);
        let u = t.take(j - i);
        assert(u =~= s@.subrange(i as int, j as int));
        if u.len() > 0 {
            assert(u.last() == s@[j - 1]);
        }
        assert(trim_end(u) == u);
    }
    r
}

/// Whether `pat` occurs in `s` starting at position `i`.
pub open spec fn occurs_at(s: Seq<char>, pat: Seq<char>, i: int) -> bool {
    0 <= i && i + pat.len() <= s.len() && s.subrange(i, i + pat.len()) == pat
}

/// The first position where `pat` occurs in `s`, if any.
#[verifier::opaque]
pub open spec fn find_sub(s: Seq<char>, pat: Seq<char>) -> Option<int> {
    if exists|i: int| occurs_at(s, pat, i) {
        Some(choose|i: int| occurs_at(s, pat, i) && forall|k: int| 0 <= k < i ==> !occurs_at(s, pat, k))
    } else {
        None
    }
}

/// The first occurrence, once found, is what `find_sub` names.
proof fn lemma_find_sub_is(s: Seq<char>, pat: Seq<char>, w: int)
    requires
        occurs_at(s, pat, w),
        forall|k: int| 0 <= k < w ==> !occurs_at(s, pat, k),
    ensures
        find_sub(s, pat) == Some(w),
{
    reveal(find_sub);
    let c = choose|i: int| occurs_at(s, pat, i) && forall|k: int| 0 <= k < i ==> !occurs_at(s, pat, k);
    assert(occurs_at(s, pat, c));
    if c < w {
        assert(!occurs_at(s, pat, c));
    }
    if c > w {
        assert(!occurs_at(s, pat, w));
    }
}

/// Whether `pat` occurs in `s` at position `i`.
fn occurs_at_exec(s: &Vec<char>, pat: &Vec<char>, i: usize) -> (r: bool)
    requires
        i + pat.len() <= s.len(),
    ensures
        r == occurs_at(s@, pat@, i as int),
{
    let mut j: usize = 0;
    while j < pat.len()
        invariant
            i + pat.len() <= s.len(),
            j <= pat.len(),
            forall|q: int| 0 <= q < j ==> s@[i + q] == pat@[q],
        decreases pat.len() - j,
    {
        if s[i + j] != pat[j] {
            assert(s@.subrange(i as int, i + pat.len())[j as int] != pat@[j as int]);
            return false;
        }
        j = j + 1;
    }
    assert(s@.subrange(i as int, i + pat.len()) =~= pat@);
    true
}

/// The first position where `pat` occurs in `s`, or `None`.
pub fn find_substring(s: &Vec<char>, pat: &Vec<char>) -> (r: Option<usize>)
    ensures
        match r {
            Some(i) => find_sub(s@, pat@) == Some(i as int) && occurs_at(s@, pat@, i as int),
            None => find_sub(s@, pat@) == None::<int> && forall|k: int| !occurs_at(s@, pat@, k),
        },
{
    if pat.len() > s.len() {
        proof {
            reveal(find_sub);
        }
        return None;
    }
    let last = s.len() - pat.len();
    let mut i: usize = 0;
    loop
        invariant
            last == s.len() - pat.len(),
            pat.len() <= s.len(),
            i <= last,
            forall|k: int| 0 <= k < i ==> !occurs_at(s@, pat@, k),
        decreases last - i,
    {
        if occurs_at_exec(s, pat, i) {
            proof {
                lemma_find_sub_is(s@, pat@, i as int);
            }
            return Some(i);
        }
        if i == last {
            proof {
                assert forall|k: int| !occurs_at(s@, pat@, k) by {
                    if 0 <= k && k + pat.len() <= s.len() {
                        assert(k <= last);
                    }
                }
                reveal(find_sub);
            }
            return None;
        }
        i = i + 1;
    }
}

} // verus!
