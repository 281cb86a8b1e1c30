use vstd::prelude::*;
use vstd::string::*;

verus! {

/// The path obtained by appending the relative component `name` to `dir`:
/// a separator is inserted only where `dir` is non-empty and does not
/// already end with one.
pub open spec fn joined(dir: Seq<char>, name: Seq<char>) -> Seq<char> {
    if dir.len() == 0 || dir.last() == '/' {
        dir + name
    } else {
        dir + seq!['/'] + name
    }
}

/// Appends the relative component `name` to the directory path `dir`.
pub fn join_path(dir: &str, name: &str) -> (r: String)
    ensures
        r@ == joined(dir@, name@),
{
    let mut r = String::from_str(dir);
    let n = dir.unicode_len();
    if n > 0 && dir.get_char(n - 1) != '/' {
        r.append("/");
        proof {
            reveal_strlit("/");
        }
    }
    r.append(name);
    r
}

/// Whether `m` occurs in `s` at position `i`.
pub open spec fn occurs_at(s: Seq<char>, m: Seq<char>, i: int) -> bool {
    0 <= i && i + m.len() <= s.len() && s.subrange(i, i + m.len()) == m
}

/// Whether `m` occurs anywhere in `s`.
pub open spec fn contains_seq(s: Seq<char>, m: Seq<char>) -> bool {
    exists|i: int| occurs_at(s, m, i)
}

/// Whether `m` occurs in `s` at char position `i`.
fn matches_at(s: &str, m: &str, i: usize) -> (r: bool)
    requires
        i + m@.len() <= s@.len(),
    ensures
        r == occurs_at(s@, m@, i as int),
{
    let n = s.unicode_len();
    let mlen = m.unicode_len();
    let mut j: usize = 0;
    while j < mlen
        invariant
            mlen == m@.len(),
            n == s@.len(),
            i + mlen <= n,
            j <= mlen,
            forall|k: int| 0 <= k < j ==> s@[i + k] == m@[k],
        decreases mlen - j,
    {
        if s.get_char(i + j) != m.get_char(j) {
            assert(s@.subrange(i as int, i + mlen)[j as int] != m@[j as int]);
            return false;
        }
        j = j + 1;
    }
    assert(s@.subrange(i as int, i + mlen) =~= m@);
    true
}

/// Whether `m` occurs anywhere in `s`.
pub fn contains_str(s: &str, m: &str) -> (r: bool)
    ensures
        r == contains_seq(s@, m@),
{
    let n = s.unicode_len();
    let mlen = m.unicode_len();
    if mlen > n {
        assert forall|i: int| !occurs_at(s@, m@, i) by {}
        return false;
    }
    let last = n - mlen;
    let mut i: usize = 0;
    loop
        invariant
            n == s@.len(),
            mlen == m@.len(),
            last == n - mlen,
            i <= last,
            forall|k: int| 0 <= k < i ==> !occurs_at(s@, m@, k),
        ensures
            forall|k: int| 0 <= k <= last ==> !occurs_at(s@, m@, k),
        decreases last - i,
    {
        if matches_at(s, m, i) {
            return true;
        }
        if i == last {
            break;
        }
        i = i + 1;
    }
    assert forall|k: int| !occurs_at(s@, m@, k) by {
        if 0 <= k && k + mlen <= n {
            assert(k <= last);
        }
    }
    false
}

/// Names the final component of a path, where it is a normal one: the name
/// of the file or directory the path points at.
pub uninterp spec fn file_name_of(path: Seq<char>) -> Option<Seq<char>>;

/// Relies on `std::path::Path::file_name`: the final component of `path`,
/// or nothing where the path ends in `..` or is a root or empty; a `&str`
/// path always gives a UTF-8 component.
#[verifier::external_body]
pub(crate) fn file_name(path: &str) -> (r: Option<String>)
    ensures
        match r {
            Some(n) => file_name_of(path@) == Some(n@),
            None => file_name_of(path@) is None,
        },
{
    std::path::Path::new(path).file_name().and_then(|n| n.to_str()).map(|n| n.to_string())
}

} // verus!
