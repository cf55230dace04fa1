//! Finding a usable Python: version parsing, the minimum-version rule, the
//! order in which candidate interpreters are tried, and the installer that
//! fits the machine.

use vstd::prelude::*;
use crate::text::{
    all_digits, chars_of, decimal, digit_test, digits_end, find_char, find_char_range, is_digit,
    leading_digits, lemma_decimal_digits, lemma_decimal_parses, lemma_digit_is_plain,
    lemma_prefix_len, lemma_trim_keeps, other_than, parse_u32_range, parse_unsigned, push_char,
    push_decimal, range_starts_with, strip_prefix_or_keep, trim, trim_range,
};

verus! {

/// The oldest usable major version.
pub const MIN_MAJOR: u32 = 3;

/// The oldest usable minor version of `MIN_MAJOR`.
pub const MIN_MINOR: u32 = 10;

/// A Python interpreter that was found: its executable and its version
/// `(major, minor, patch)`.
#[derive(Debug)]
pub struct PythonInfo {
    pub exe: String,
    pub version: (u32, u32, u32),
}

impl Clone for PythonInfo {
    fn clone(&self) -> (r: Self)
        ensures
            r == *self,
    {
        PythonInfo { exe: self.exe.clone(), version: self.version }
    }
}

/// A version meets the minimum when it is 3.10 or later.
pub open spec fn version_meets_minimum(v: (u32, u32, u32)) -> bool {
    v.0 > MIN_MAJOR || (v.0 == MIN_MAJOR && v.1 >= MIN_MINOR)
}

/// The text `major.minor.patch`.
pub open spec fn version_text(v: (u32, u32, u32)) -> Seq<char> {
    decimal(v.0 as nat) + seq!['.'] + decimal(v.1 as nat) + seq!['.'] + decimal(v.2 as nat)
}

/// The minimum rule in plain numbers: a version is usable exactly when its
/// major number is above 3, or it is 3 and its minor number is 10 or more.
/// Every later minor release of Python 3 counts, as does any later major.
pub proof fn lemma_minimum_rule(v: (u32, u32, u32))
    ensures
        version_meets_minimum(v) <==> (v.0 > 3 || (v.0 == 3 && v.1 >= 10)),
{
}

/// The minimum is monotone: a version at or above a usable one (comparing
/// major, then minor) is usable too, whatever the patch numbers.
pub proof fn lemma_minimum_monotone(v: (u32, u32, u32), w: (u32, u32, u32))
    requires
        version_meets_minimum(v),
        w.0 > v.0 || (w.0 == v.0 && w.1 >= v.1),
    ensures
        version_meets_minimum(w),
{
}

impl PythonInfo {
    /// The version as `major.minor.patch`.
    pub fn version_string(&self) -> (r: String)
        ensures
            r@ == version_text(self.version),
    {
        let mut out = String::new();
        push_decimal(&mut out, self.version.0 as u64);
        push_char(&mut out, '.');
        push_decimal(&mut out, self.version.1 as u64);
        push_char(&mut out, '.');
        push_decimal(&mut out, self.version.2 as u64);
        out
    }

    /// Whether this interpreter is Python 3.10 or later.
    pub fn meets_minimum(&self) -> (r: bool)
        ensures
            r == version_meets_minimum(self.version),
    {
        let (maj, min, _) = self.version;
        maj > MIN_MAJOR || (maj == MIN_MAJOR && min >= MIN_MINOR)
    }
}

/// The text `"Python "` that `python -V` prints before the version.
pub open spec fn python_prefix() -> Seq<char> {
    seq!['P', 'y', 't', 'h', 'o', 'n', ' ']
}

/// `s` up to its first `.`.
pub open spec fn before_dot(s: Seq<char>) -> Seq<char> {
    s.subrange(0, find_char(s, '.') as int)
}

/// What follows the first `.` of `s`, if it has one.
pub open spec fn after_dot(s: Seq<char>) -> Option<Seq<char>> {
    let k = find_char(s, '.');
    if k < s.len() {
        Some(s.subrange(k as int + 1, s.len() as int))
    } else {
        None
    }
}

/// The patch number read from the third dot-separated piece: its leading
/// digits, and 0 where there are none or they exceed `u32::MAX`.
pub open spec fn patch_of(piece: Seq<char>) -> nat {
    match parse_unsigned(leading_digits(piece), u32::MAX as nat) {
        Some(p) => p,
        None => 0,
    }
}

/// The version that the output of `python -V` states. The output is
/// trimmed, a leading `Python ` dropped, and the rest split at `.`: the
/// first two pieces, trimmed, must be `u32` numbers (major and minor); the
/// third piece, `0` where it is missing, gives the patch number.
pub open spec fn parsed_version(s: Seq<char>) -> Option<(u32, u32, u32)> {
    let a = strip_prefix_or_keep(trim(s), python_prefix());
    match parse_unsigned(trim(before_dot(a)), u32::MAX as nat) {
        None => None,
        Some(maj) => match after_dot(a) {
            None => None,
            Some(r1) => match parse_unsigned(trim(before_dot(r1)), u32::MAX as nat) {
                None => None,
                Some(min) => {
                    let patch_raw = match after_dot(r1) {
                        Some(r2) => before_dot(r2),
                        None => seq!['0'],
                    };
                    Some((maj as u32, min as u32, patch_of(patch_raw) as u32))
                },
            },
        },
    }
}

/// Reads the version out of what `python -V` printed, such as
/// `Python 3.11.9`.
#[verifier::spinoff_prover]
#[verifier::rlimit(40)]
pub fn parse_version(s: &str) -> (r: Option<(u32, u32, u32)>)
    ensures
        r == parsed_version(s@),
{
    let v = chars_of(s);
    let n = v.len();
    let (a, b) = trim_range(&v, 0, n);
    proof {
        assert(v@.subrange(0, n as int) =~= v@);
    }
    let prefix: Vec<char> = vec!['P', 'y', 't', 'h', 'o', 'n', ' '];
    assert(prefix@ =~= python_prefix());
    let ghost t = v@.subrange(a as int, b as int);
    let mut start = a;
    if range_starts_with(&v, a, b, &prefix) {
        start = a + 7;
    }
    let ghost av = v@.subrange(start as int, b as int);
    assert(av =~= strip_prefix_or_keep(t, python_prefix()));
    // first piece
    let d1 = find_char_range(&v, start, b, '.');
    assert(v@.subrange(start as int, d1 as int) =~= before_dot(av));
    let (m0, m1) = trim_range(&v, start, d1);
    let maj = match parse_u32_range(&v, m0, m1) {
        Some(x) => x,
        None => return None,
    };
    if d1 == b {
        return None;
    }
    let ghost r1 = v@.subrange(d1 + 1, b as int);
    assert(after_dot(av) == Some(r1)) by {
        assert(av.subrange(d1 - start + 1, av.len() as int) =~= r1);
    }
    let d2 = find_char_range(&v, d1 + 1, b, '.');
    assert(v@.subrange(d1 + 1, d2 as int) =~= before_dot(r1));
    let (n0, n1) = trim_range(&v, d1 + 1, d2);
    let min = match parse_u32_range(&v, n0, n1) {
        Some(x) => x,
        None => return None,
    };
    let patch: u32;
    if d2 < b {
        let ghost r2 = v@.subrange(d2 + 1, b as int);
        assert(after_dot(r1) == Some(r2)) by {
            assert(r1.subrange(d2 - d1, r1.len() as int) =~= r2);
        }
        let d3 = find_char_range(&v, d2 + 1, b, '.');
        assert(v@.subrange(d2 + 1, d3 as int) =~= before_dot(r2));
        let e = digits_end(&v, d2 + 1, d3);
        patch = match parse_u32_range(&v, d2 + 1, e) {
            Some(x) => x,
            None => 0,
        };
    } else {
        assert(after_dot(r1) is None);
        let zero: Vec<char> = vec!['0'];
        assert(zero@ =~= seq!['0']);
        let e = digits_end(&zero, 0, 1);
        assert(zero@.subrange(0, 1) =~= seq!['0']);
        patch = match parse_u32_range(&zero, 0, e) {
            Some(x) => x,
            None => 0,
        };
    }
    Some((maj, min, patch))
}


/// The Python installer for 64-bit Windows.
pub const PYTHON_INSTALLER_URL_X64: &'static str =
    "https://www.python.org/ftp/python/3.11.9/python-3.11.9-amd64.exe";

/// The Python installer for 32-bit Windows.
pub const PYTHON_INSTALLER_URL_X86: &'static str =
    "https://www.python.org/ftp/python/3.11.9/python-3.11.9.exe";

/// The installer that fits the pointer width of this build.
pub fn installer_url() -> (r: &'static str)
    ensures
        r == (if usize::BITS == 64 {
            PYTHON_INSTALLER_URL_X64
        } else {
            PYTHON_INSTALLER_URL_X86
        }),
{
    if usize::BITS == 64 {
        PYTHON_INSTALLER_URL_X64
    } else {
        PYTHON_INSTALLER_URL_X86
    }
}

/// An outcome of probing a candidate is usable when it found an
/// interpreter of at least the minimum version.
pub open spec fn usable(o: Option<PythonInfo>) -> bool {
    o matches Some(info) && version_meets_minimum(info.version)
}

/// `outs` are the outcomes of probing the first `outs.len()` candidates in
/// order, stopping at the first usable one, and `r` is what that search
/// found: the last outcome if it is usable, else nothing, in which case
/// every candidate was probed.
pub open spec fn search_outcome<F: Fn(&String) -> Option<PythonInfo>>(
    candidates: Seq<String>,
    probe: F,
    outs: Seq<Option<PythonInfo>>,
    r: Option<PythonInfo>,
) -> bool {
    &&& outs.len() <= candidates.len()
    &&& forall|k: int| 0 <= k < outs.len() ==> call_ensures(probe, (&candidates[k],), #[trigger] outs[k])
    &&& forall|k: int| 0 <= k < outs.len() - 1 ==> !usable(#[trigger] outs[k])
    &&& match r {
        Some(info) => outs.len() > 0 && outs.last() == Some(info) && version_meets_minimum(info.version),
        None => outs.len() == candidates.len() && (outs.len() > 0 ==> !usable(outs.last())),
    }
}

/// Probes the candidates in order and returns the first interpreter of at
/// least the minimum version; the candidates after it are not probed.
pub fn detect<F: Fn(&String) -> Option<PythonInfo>>(candidates: &Vec<String>, probe: F) -> (r:
    Option<PythonInfo>)
    requires
        forall|k: int| 0 <= k < candidates@.len() ==> call_requires(probe, (&#[trigger] candidates@[k],)),
    ensures
        exists|outs: Seq<Option<PythonInfo>>| search_outcome(candidates@, probe, outs, r),
{
    let ghost mut outs: Seq<Option<PythonInfo>> = Seq::empty();
    let mut i: usize = 0;
    while i < candidates.len()
        invariant
            i <= candidates@.len(),
            outs.len() == i,
            forall|k: int| 0 <= k < candidates@.len() ==> call_requires(probe, (&#[trigger] candidates@[k],)),
            forall|k: int| 0 <= k < outs.len() ==> call_ensures(probe, (&candidates@[k],), #[trigger] outs[k]),
            forall|k: int| 0 <= k < outs.len() ==> !usable(#[trigger] outs[k]),
        decreases candidates@.len() - i,
    {
        let o = probe(&candidates[i]);
        proof {
            outs = outs.push(o);
        }
        if let Some(info) = o {
            if info.meets_minimum() {
                assert(search_outcome(candidates@, probe, outs, Some(info)));
                return Some(info);
            }
        }
        i = i + 1;
    }
    assert(search_outcome(candidates@, probe, outs, None));
    None
}

/// The texts of the fixed interpreter paths to try after installing.
pub open spec fn known_path_texts() -> Seq<Seq<char>> {
    seq![
        r"C:\Program Files\Python311\python.exe"@,
        r"C:\Program Files\Python310\python.exe"@,
        r"C:\Program Files (x86)\Python311\python.exe"@,
        r"C:\Program Files (x86)\Python310\python.exe"@,
    ]
}

/// The interpreter paths where the installer puts Python, newest first.
pub fn known_python_paths() -> (r: Vec<String>)
    ensures
        r@.len() == known_path_texts().len(),
        forall|k: int| 0 <= k < r@.len() ==> #[trigger] r@[k]@ == known_path_texts()[k],
{
    let mut v: Vec<String> = Vec::new();
    v.push(String::from_str(r"C:\Program Files\Python311\python.exe"));
    v.push(String::from_str(r"C:\Program Files\Python310\python.exe"));
    v.push(String::from_str(r"C:\Program Files (x86)\Python311\python.exe"));
    v.push(String::from_str(r"C:\Program Files (x86)\Python310\python.exe"));
    v
}

/// Looks for a usable interpreter at the fixed install locations, in the
/// order of `known_python_paths`; `probe` stands for "is a file and answers
/// `-V`".
pub fn detect_in_known_paths<F: Fn(&String) -> Option<PythonInfo>>(probe: F) -> (r: Option<
    PythonInfo,
>)
    requires
        forall|s: &String| call_requires(probe, (s,)),
    ensures
        exists|c: Seq<String>, outs: Seq<Option<PythonInfo>>|
            {
                &&& c.len() == known_path_texts().len()
                &&& (forall|k: int| 0 <= k < c.len() ==> #[trigger] c[k]@ == known_path_texts()[k])
                &&& search_outcome(c, probe, outs, r)
            },
{
    let paths = known_python_paths();
    let r = detect(&paths, probe);
    let ghost outs = choose|outs: Seq<Option<PythonInfo>>| search_outcome(paths@, probe, outs, r);
    assert(search_outcome(paths@, probe, outs, r));
    r
}

/// The executable names looked up on `PATH`, in order.
pub open spec fn executable_names() -> Seq<&'static str> {
    seq!["py.exe", "python.exe", "python3.exe"]
}

/// The values held by the `Some` entries of `outs`, in order.
pub open spec fn present(outs: Seq<Option<String>>) -> Seq<String>
    decreases outs.len(),
{
    if outs.len() == 0 {
        Seq::empty()
    } else {
        match outs.last() {
            Some(s) => present(outs.drop_last()).push(s),
            None => present(outs.drop_last()),
        }
    }
}

/// Looks each executable name up with `which` and lists what was found, in
/// the order of `executable_names`.
pub fn candidate_executables<F: Fn(&str) -> Option<String>>(which: F) -> (r: Vec<String>)
    requires
        forall|name: &str| call_requires(which, (name,)),
    ensures
        exists|outs: Seq<Option<String>>|
            {
                &&& outs.len() == executable_names().len()
                &&& (forall|k: int| 0 <= k < outs.len() ==> call_ensures(which, (executable_names()[k],), #[trigger] outs[k]))
                &&& r@ == present(outs)
            },
{
    let names: [&str; 3] = ["py.exe", "python.exe", "python3.exe"];
    assert(names@ =~= executable_names());
    let mut found: Vec<String> = Vec::new();
    let ghost mut outs: Seq<Option<String>> = Seq::empty();
    let mut i: usize = 0;
    while i < 3
        invariant
            i <= 3,
            names@ == executable_names(),
            outs.len() == i,
            forall|name: &str| call_requires(which, (name,)),
            forall|k: int| 0 <= k < outs.len() ==> call_ensures(which, (executable_names()[k],), #[trigger] outs[k]),
            found@ == present(outs),
        decreases 3 - i,
    {
        let o = which(names[i]);
        let ghost prev = outs;
        proof {
            outs = outs.push(o);
            assert(outs.drop_last() =~= prev);
        }
        match o {
            Some(path) => {
                found.push(path);
            },
            None => {},
        }
        i = i + 1;
    }
    found
}


/// In `a` followed by `.` and `b`, where `a` is digits, the first `.` is
/// the one after `a`.
proof fn lemma_dot_after_digits(a: Seq<char>, b: Seq<char>)
    requires
        all_digits(a),
    ensures
        find_char(a + seq!['.'] + b, '.') == a.len(),
        before_dot(a + seq!['.'] + b) == a,
        after_dot(a + seq!['.'] + b) == Some(b),
{
    let t = a + seq!['.'] + b;
    assert forall|j: int| 0 <= j < a.len() implies other_than('.')(#[trigger] t[j]) by {
        assert(t[j] == a[j]);
        assert(is_digit(a[j]));
        lemma_digit_is_plain(a[j]);
    }
    assert(t[a.len() as int] == '.');
    lemma_prefix_len(t, other_than('.'), a.len() as int);
    assert(t.subrange(0, a.len() as int) =~= a);
    assert(t.subrange(a.len() as int + 1, t.len() as int) =~= b);
}

/// A digit string has no `.` and is all leading digits.
proof fn lemma_digits_only(a: Seq<char>)
    requires
        all_digits(a),
    ensures
        find_char(a, '.') == a.len(),
        before_dot(a) == a,
        after_dot(a) is None,
        leading_digits(a) == a,
{
    assert forall|j: int| 0 <= j < a.len() implies other_than('.')(#[trigger] a[j]) by {
        assert(is_digit(a[j]));
        lemma_digit_is_plain(a[j]);
    }
    lemma_prefix_len(a, other_than('.'), a.len() as int);
    assert forall|j: int| 0 <= j < a.len() implies digit_test()(#[trigger] a[j]) by {
        assert(is_digit(a[j]));
    }
    lemma_prefix_len(a, digit_test(), a.len() as int);
    assert(a.subrange(0, a.len() as int) =~= a);
}

/// Writing a version as text and reading it back gives the same version.
pub proof fn lemma_version_text_parses(v: (u32, u32, u32))
    ensures
        parsed_version(version_text(v)) == Some(v),
{
    let d0 = decimal(v.0 as nat);
    let d1 = decimal(v.1 as nat);
    let d2 = decimal(v.2 as nat);
    lemma_decimal_digits(v.0 as nat);
    lemma_decimal_digits(v.1 as nat);
    lemma_decimal_digits(v.2 as nat);
    lemma_decimal_parses(v.0);
    lemma_decimal_parses(v.1);
    lemma_decimal_parses(v.2);
    let r1 = d1 + seq!['.'] + d2;
    let t = d0 + seq!['.'] + r1;
    assert(version_text(v) =~= t);
    assert(t[0] == d0[0]);
    assert(is_digit(d0[0]));
    lemma_digit_is_plain(d0[0]);
    assert(t.last() == d2.last());
    assert(is_digit(d2.last()));
    lemma_digit_is_plain(d2.last());
    lemma_trim_keeps(t);
    if python_prefix().len() <= t.len() {
        assert(t.subrange(0, python_prefix().len() as int)[0] != python_prefix()[0]);
    }
    assert(strip_prefix_or_keep(t, python_prefix()) == t);
    lemma_dot_after_digits(d0, r1);
    lemma_dot_after_digits(d1, d2);
    lemma_digits_only(d2);
    assert(parse_unsigned(leading_digits(d2), u32::MAX as nat) == Some(v.2 as nat));
}

/// Reads back what `version_string` writes.
pub proof fn lemma_version_string_round_trip(info: PythonInfo, text: Seq<char>)
    requires
        text == version_text(info.version),
    ensures
        parsed_version(text) == Some(info.version),
{
    lemma_version_text_parses(info.version);
}

} // verus!
