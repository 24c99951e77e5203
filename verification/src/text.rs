//! Small verified string utilities: character-wise string comparison and
//! the resolution of a home-relative path.
use vstd::prelude::*;

verus! {

/// Decides whether two strings hold the same characters.
pub fn str_eq(a: &str, b: &str) -> (r: bool)
    ensures
        r == (a@ == b@),
{
    let a_len = a.unicode_len();
    let b_len = b.unicode_len();
    if a_len != b_len {
        return false;
    }
    let mut i: usize = 0;
    while i < a_len
        invariant
            i <= a_len,
            a_len == a@.len(),
            b_len == b@.len(),
            a@.len() == b@.len(),
            forall|j: int| 0 <= j < i ==> a@[j] == b@[j],
        decreases a_len - i,
    {
        if a.get_char(i) != b.get_char(i) {
            return false;
        }
        i = i + 1;
    }
    proof {
        assert(a@ =~= b@);
    }
    true
}

/// Joins the home directory and a home-relative path with a single slash,
/// exactly as the scan and the file reader resolve their target. Nothing is
/// sanitized: the caller controls the relative part.
pub fn resolve_path(home: &str, relative: &str) -> (full: String)
    ensures
        full@ == home@ + seq!['/'] + relative@,
{
    let mut full = String::new();
    full.append(home);
    full.append("/");
    full.append(relative);
    proof {
        reveal_strlit("/");
        assert(full@ =~= home@ + seq!['/'] + relative@);
    }
    full
}

} // verus!
