//! Laying out the project's archive: GitHub wraps everything in one
//! top-level directory, which is dropped on extraction.

use vstd::prelude::*;
use crate::paths::is_separator;
use crate::text::chars_of;

verus! {

/// The index of the first separator in `s`, or its length.
pub open spec fn first_separator(s: Seq<char>) -> int
    decreases s.len(),
{
    if s.len() == 0 {
        0
    } else if is_separator(s[0]) {
        0
    } else {
        1 + first_separator(s.drop_first())
    }
}

/// `s` without separators at its start.
pub open spec fn trim_leading_separators(s: Seq<char>) -> Seq<char>
    decreases s.len(),
{
    if s.len() > 0 && is_separator(s[0]) {
        trim_leading_separators(s.drop_first())
    } else {
        s
    }
}

/// `s` without separators at its end.
pub open spec fn trim_trailing_separators(s: Seq<char>) -> Seq<char>
    decreases s.len(),
{
    if s.len() > 0 && is_separator(s.last()) {
        trim_trailing_separators(s.drop_last())
    } else {
        s
    }
}

/// Where an archive entry goes under the target directory: its name after
/// the top-level directory, without the separators around it; nothing for
/// the top-level directory itself.
pub open spec fn entry_destination(name: Seq<char>) -> Option<Seq<char>> {
    let rest = trim_trailing_separators(
        trim_leading_separators(name.subrange(first_separator(name), name.len() as int)),
    );
    if rest.len() == 0 {
        None
    } else {
        Some(rest)
    }
}

proof fn lemma_first_separator(s: Seq<char>, k: int)
    requires
        0 <= k <= s.len(),
        forall|j: int| 0 <= j < k ==> !is_separator(#[trigger] s[j]),
        k < s.len() ==> is_separator(s[k]),
    ensures
        first_separator(s) == k,
    decreases k,
{
    if k > 0 {
        let t = s.drop_first();
        assert forall|j: int| 0 <= j < k - 1 implies !is_separator(#[trigger] t[j]) by {
            assert(t[j] == s[j + 1]);
        }
        if k - 1 < t.len() {
            assert(t[k - 1] == s[k]);
        }
        lemma_first_separator(t, k - 1);
    }
}

/// The path, relative to the target directory, that an archive entry named
/// `name` is extracted to; none for the top-level directory.
pub fn entry_relative_path(name: &str) -> (r: Option<String>)
    ensures
        match r {
            Some(p) => entry_destination(name@) == Some(p@),
            None => entry_destination(name@) is None,
        },
{
    let v = chars_of(name);
    let n = v.len();
    let mut k: usize = 0;
    while k < n && !(v[k] == '\\' || v[k] == '/')
        invariant
            k <= n == v@.len(),
            forall|j: int| 0 <= j < k ==> !is_separator(#[trigger] v@[j]),
        decreases n - k,
    {
        k = k + 1;
    }
    proof {
        lemma_first_separator(v@, k as int);
    }
    let mut a = k;
    while a < n && (v[a] == '\\' || v[a] == '/')
        invariant
            k <= a <= n == v@.len(),
            trim_leading_separators(v@.subrange(k as int, n as int)) == trim_leading_separators(
                v@.subrange(a as int, n as int),
            ),
        decreases n - a,
    {
        assert(v@.subrange(a as int, n as int).drop_first() =~= v@.subrange(a + 1, n as int));
        a = a + 1;
    }
    let mut b = n;
    while b > a && (v[b - 1] == '\\' || v[b - 1] == '/')
        invariant
            a <= b <= n == v@.len(),
            trim_trailing_separators(v@.subrange(a as int, n as int)) == trim_trailing_separators(
                v@.subrange(a as int, b as int),
            ),
        decreases b - a,
    {
        assert(v@.subrange(a as int, b as int).drop_last() =~= v@.subrange(a as int, b - 1));
        b = b - 1;
    }
    if a == b {
        return None;
    }
    let mut out = String::new();
    let mut i = a;
    while i < b
        invariant
            a <= i <= b <= n == v@.len(),
            out@ == v@.subrange(a as int, i as int),
        decreases b - i,
    {
        crate::text::push_char(&mut out, v[i]);
        assert(v@.subrange(a as int, i + 1) =~= v@.subrange(a as int, i as int).push(v@[i as int]));
        i = i + 1;
    }
    Some(out)
}

} // verus!
