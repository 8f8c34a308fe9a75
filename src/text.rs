//! Character-level helpers on strings: equality, substring containment and
//! the `_`-separated segment that names a device's identifier.
use vstd::prelude::*;

verus! {

/// `p` occurs in `s` as a contiguous run of characters.
pub open spec fn seq_contains(s: Seq<char>, p: Seq<char>) -> bool {
    exists|i: int| 0 <= i <= s.len() - p.len() && #[trigger] s.subrange(i, i + p.len()) == p
}

/// The position of the first `_` at or after `from`, or the length of `s` when there is none.
pub open spec fn segment_end(s: Seq<char>, from: int) -> int
    decreases s.len() - from,
{
    if from < 0 || from >= s.len() {
        s.len() as int
    } else if s[from] == '_' {
        from
    } else {
        segment_end(s, from + 1)
    }
}

/// The second piece of `s` split on `_` (index 1), if `s` holds a `_` at all.
pub open spec fn second_segment(s: Seq<char>) -> Option<Seq<char>> {
    let first_end = segment_end(s, 0);
    if first_end >= s.len() {
        None
    } else {
        Some(s.subrange(first_end + 1, segment_end(s, first_end + 1)))
    }
}

proof fn lemma_segment_end_bounds(s: Seq<char>, from: int)
    requires
        0 <= from <= s.len(),
    ensures
        from <= segment_end(s, from) <= s.len(),
    decreases s.len() - from,
{
    if from < s.len() && s[from] != '_' {
        lemma_segment_end_bounds(s, from + 1);
    }
}

/// The characters of `s`, one per element.
pub fn chars_of(s: &str) -> (r: Vec<char>)
    ensures
        r@ == s@,
{
    let n = s.unicode_len();
    let mut r: Vec<char> = Vec::new();
    let mut i: usize = 0;
    while i < n
        invariant
            n == s@.len(),
            i <= n,
            r@ == s@.subrange(0, i as int),
        decreases n - i,
    {
        r.push(s.get_char(i));
        i = i + 1;
    }
    assert(r@ =~= s@);
    r
}

/// Whether the two strings hold the same characters.
pub fn same_text(a: &str, b: &str) -> (r: bool)
    ensures
        r == (a@ == b@),
{
    let x = chars_of(a);
    let y = chars_of(b);
    if x.len() != y.len() {
        return false;
    }
    let mut i: usize = 0;
    while i < x.len()
        invariant
            x@ == a@,
            y@ == b@,
            x@.len() == y@.len(),
            i <= x@.len(),
            forall|k: int| 0 <= k < i ==> x@[k] == y@[k],
        decreases x@.len() - i,
    {
        if x[i] != y[i] {
            return false;
        }
        i = i + 1;
    }
    assert(x@ =~= y@);
    true
}

/// Whether `pat` occurs in `hay` as a contiguous run of characters.
pub fn contains_text(hay: &[char], pat: &[char]) -> (r: bool)
    ensures
        r == seq_contains(hay@, pat@),
{
    if pat.len() > hay.len() {
        return false;
    }
    let n = hay.len();
    let last = n - pat.len();
    let mut i: usize = 0;
    loop
        invariant
            last == hay@.len() - pat@.len(),
            n == hay@.len(),
            i <= last,
            forall|k: int| 0 <= k < i ==> #[trigger] hay@.subrange(k, k + pat@.len()) != pat@,
        decreases last + 1 - i,
    {
        let mut j: usize = 0;
        let mut same: bool = true;
        while j < pat.len()
            invariant
                last == hay@.len() - pat@.len(),
                i <= last,
                n == hay@.len(),
                i + pat@.len() <= hay@.len(),
                j <= pat@.len(),
                same == (forall|k: int| 0 <= k < j ==> hay@[i + k] == pat@[k]),
            decreases pat@.len() - j,
        {
            if hay[i + j] != pat[j] {
                same = false;
            }
            j = j + 1;
        }
        if same {
            assert(hay@.subrange(i as int, i + pat@.len()) =~= pat@);
            return true;
        }
        assert(hay@.subrange(i as int, i + pat@.len()) != pat@) by {
            let k = choose|k: int| 0 <= k < pat@.len() && hay@[i + k] != pat@[k];
            assert(hay@.subrange(i as int, i + pat@.len())[k] != pat@[k]);
        }
        if i == last {
            return false;
        }
        i = i + 1;
    }
}

/// The first `_` at or after `from`, or the length when there is none.
fn find_separator(s: &[char], from: usize) -> (r: usize)
    requires
        from <= s@.len(),
    ensures
        r == segment_end(s@, from as int),
{
    let mut i: usize = from;
    while i < s.len() && s[i] != '_'
        invariant
            from <= i <= s@.len(),
            segment_end(s@, from as int) == segment_end(s@, i as int),
        decreases s@.len() - i,
    {
        i = i + 1;
    }
    i
}

/// The second piece of `s` split on `_`, or `None` when `s` holds no `_`.
pub fn second_segment_of(s: &[char]) -> (r: Option<Vec<char>>)
    ensures
        r matches Some(v) ==> second_segment(s@) == Some(v@),
        r is None ==> second_segment(s@) is None,
{
    let first_end = find_separator(s, 0);
    if first_end >= s.len() {
        return None;
    }
    let end = find_separator(s, first_end + 1);
    proof {
        lemma_segment_end_bounds(s@, first_end + 1);
    }
    let mut v: Vec<char> = Vec::new();
    let mut i: usize = first_end + 1;
    while i < end
        invariant
            first_end < s@.len(),
            first_end + 1 <= i <= end,
            end <= s@.len(),
            v@ == s@.subrange(first_end + 1, i as int),
        decreases end - i,
    {
        v.push(s[i]);
        i = i + 1;
    }
    assert(v@ =~= s@.subrange(first_end + 1, end as int));
    Some(v)
}

} // verus!
