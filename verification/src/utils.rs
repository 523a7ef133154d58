//! Text helpers for executable names and paths.

use vstd::prelude::*;
use vstd::string::StrSliceExecFns;

verus! {

/// The code point of `c`, with the ASCII capitals mapped onto their small
/// letters and every other character left alone.
pub open spec fn ascii_fold(c: char) -> u32 {
    let n = c as u32;
    if 0x41 <= n && n <= 0x5a {
        (n + 0x20) as u32
    } else {
        n
    }
}

/// Equality of two texts up to the case of ASCII letters.
pub open spec fn eq_ignore_case(a: Seq<char>, b: Seq<char>) -> bool {
    &&& a.len() == b.len()
    &&& forall|i: int| 0 <= i < a.len() ==> ascii_fold(#[trigger] a[i]) == ascii_fold(b[i])
}

/// Whether `s` ends in `.exe`, in any mix of upper and lower case.
pub open spec fn has_exe_suffix(s: Seq<char>) -> bool {
    &&& s.len() >= 4
    &&& s[s.len() - 4] == '.'
    &&& ascii_fold(s[s.len() - 3]) == 0x65
    &&& ascii_fold(s[s.len() - 2]) == 0x78
    &&& ascii_fold(s[s.len() - 1]) == 0x65
}

/// An executable name without its `.exe` extension.
pub open spec fn normalized_name(s: Seq<char>) -> Seq<char> {
    if has_exe_suffix(s) {
        s.subrange(0, s.len() - 4)
    } else {
        s
    }
}

/// Whether `pat` stands in `hay` starting at position `i`.
pub open spec fn occurs_at(hay: Seq<char>, pat: Seq<char>, i: int) -> bool {
    &&& 0 <= i
    &&& i + pat.len() <= hay.len()
    &&& hay.subrange(i, i + pat.len()) == pat
}

/// Whether `pat` stands somewhere in `hay`.
pub open spec fn contains_text(hay: Seq<char>, pat: Seq<char>) -> bool {
    exists|i: int| occurs_at(hay, pat, i)
}

/// Whether a path reads like that of a test set-up. Nothing in the library
/// goes by this: every path is looked for and terminated alike.
pub open spec fn is_test_path(path: Seq<char>) -> bool {
    ||| contains_text(path, "test"@)
    ||| contains_text(path, "mock"@)
    ||| contains_text(path, "nonexistent"@)
}

/// The folded code point of one character.
pub fn fold_char(c: char) -> (n: u32)
    ensures
        n == ascii_fold(c),
{
    let n: u32 = c as u32;
    if 0x41 <= n && n <= 0x5a {
        n + 0x20
    } else {
        n
    }
}

/// The characters of a text, one by one.
pub fn chars_of(s: &str) -> (v: Vec<char>)
    ensures
        v@ == s@,
{
    let n: usize = s.unicode_len();
    let mut v: Vec<char> = Vec::new();
    let mut i: usize = 0;
    while i < n
        invariant
            n == s@.len(),
            i <= n,
            v@ == s@.subrange(0, i as int),
        decreases n - i,
    {
        v.push(s.get_char(i));
        i += 1;
    }
    assert(s@.subrange(0, n as int) == s@);
    v
}

/// Compares two texts without regard to the case of ASCII letters.
pub fn eq_ignore_ascii_case(a: &str, b: &str) -> (r: bool)
    ensures
        r == eq_ignore_case(a@, b@),
{
    let x = chars_of(a);
    let y = chars_of(b);
    if x.len() != y.len() {
        return false;
    }
    let mut i: usize = 0;
    while i < x.len()
        invariant
            x@ == a@,
            y@ == b@,
            x.len() == y.len(),
            i <= x.len(),
            forall|j: int| 0 <= j < i ==> ascii_fold(#[trigger] x@[j]) == ascii_fold(y@[j]),
        decreases x.len() - i,
    {
        if fold_char(x[i]) != fold_char(y[i]) {
            return false;
        }
        i += 1;
    }
    true
}

/// Removes a trailing `.exe`, written in any case, from an executable name.
/// A name without that extension comes back unchanged.
pub fn normalize_exe_name(exe_name: &str) -> (r: &str)
    ensures
        r@ == normalized_name(exe_name@),
{
    let n: usize = exe_name.unicode_len();
    if n >= 4 && exe_name.get_char(n - 4) == '.' && fold_char(exe_name.get_char(n - 3)) == 0x65
        && fold_char(exe_name.get_char(n - 2)) == 0x78 && fold_char(exe_name.get_char(n - 1))
        == 0x65 {
        exe_name.substring_char(0, n - 4)
    } else {
        exe_name
    }
}

/// Whether `pat` stands in `hay` at position `i`, for a position at which it
/// fits.
fn matches_at(hay: &Vec<char>, pat: &Vec<char>, i: usize) -> (r: bool)
    requires
        i + pat.len() <= hay.len(),
    ensures
        r == occurs_at(hay@, pat@, i as int),
{
    let mut k: usize = 0;
    while k < pat.len()
        invariant
            i + pat.len() <= hay.len(),
            k <= pat.len(),
            forall|j: int| 0 <= j < k ==> hay@[i + j] == #[trigger] pat@[j],
        decreases pat.len() - k,
    {
        if hay[i + k] != pat[k] {
            assert(hay@.subrange(i as int, i + pat.len())[k as int] == hay@[i + k]);
            return false;
        }
        k += 1;
    }
    assert(hay@.subrange(i as int, i + pat.len()) =~= pat@);
    true
}

/// Whether the text `pat` stands somewhere in the text `hay`.
pub fn contains(hay: &str, pat: &str) -> (r: bool)
    ensures
        r == contains_text(hay@, pat@),
{
    let h = chars_of(hay);
    let p = chars_of(pat);
    if p.len() > h.len() {
        return false;
    }
    let last: usize = h.len() - p.len();
    let mut i: usize = 0;
    loop
        invariant
            h@ == hay@,
            p@ == pat@,
            p.len() <= h.len(),
            last == h.len() - p.len(),
            i <= last,
            forall|j: int| 0 <= j < i ==> !occurs_at(h@, p@, j),
        decreases last - i,
    {
        if matches_at(&h, &p, i) {
            return true;
        }
        if i == last {
            return false;
        }
        i += 1;
    }
}

/// Whether a path names a test set-up: it holds `test`, `mock` or
/// `nonexistent`.
pub fn is_test_environment(path: &str) -> (r: bool)
    ensures
        r == is_test_path(path@),
{
    contains(path, "test") || contains(path, "mock") || contains(path, "nonexistent")
}

} // verus!
