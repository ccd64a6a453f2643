//! What a file-type icon is looked up by.

use vstd::prelude::*;

verus! {

/// The index of the first `.` of `s` at or after `from`, or the length of
/// `s` where there is none.
pub open spec fn next_dot(s: Seq<char>, from: int) -> int
    decreases s.len() - from,
{
    if from >= s.len() {
        s.len() as int
    } else if s[from] == '.' {
        from
    } else {
        next_dot(s, from + 1)
    }
}

/// The name and extension that a file's icon is looked up by: the text up
/// to the first `.`, and the text between the first and the second `.` (or
/// the end); no extension without a `.`.
pub open spec fn icon_query_of(file: Seq<char>) -> (Seq<char>, Seq<char>) {
    let d = next_dot(file, 0);
    if d >= file.len() {
        (file, Seq::empty())
    } else {
        (file.take(d), file.subrange(d + 1, next_dot(file, d + 1)))
    }
}

proof fn lemma_next_dot_bounds(s: Seq<char>, from: int)
    requires
        0 <= from <= s.len(),
    ensures
        from <= next_dot(s, from) <= s.len(),
    decreases s.len() - from,
{
    if from < s.len() && s[from] != '.' {
        lemma_next_dot_bounds(s, from + 1);
    }
}

/// The index of the first `.` of `s` at or after `from`.
fn find_dot(s: &str, from: usize) -> (r: usize)
    requires
        from <= s@.len(),
    ensures
        r == next_dot(s@, from as int),
{
    let n = s.unicode_len();
    let mut i = from;
    while i < n && s.get_char(i) != '.'
        invariant
            from <= i <= n,
            n == s@.len(),
            next_dot(s@, i as int) == next_dot(s@, from as int),
        decreases n - i,
    {
        i = i + 1;
    }
    i
}

/// The name and extension that the icon of `file` is looked up by.
pub fn icon_query(file: &str) -> (r: (&str, &str))
    ensures
        (r.0@, r.1@) == icon_query_of(file@),
{
    let n = file.unicode_len();
    let d = find_dot(file, 0);
    proof {
        lemma_next_dot_bounds(file@, 0);
    }
    if d >= n {
        assert(file@.subrange(0, n as int) =~= file@);
        (file.substring_char(0, n), file.substring_char(n, n))
    } else {
        let e = find_dot(file, d + 1);
        proof {
            lemma_next_dot_bounds(file@, d + 1);
        }
        assert(file@.subrange(0, d as int) =~= file@.take(d as int));
        (file.substring_char(0, d), file.substring_char(d + 1, e))
    }
}

} // verus!
