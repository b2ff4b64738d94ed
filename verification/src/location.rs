//! Splitting a location string into its backend root and object path.
//!
//! A location in URI form is `scheme://authority/path...`. The backend root
//! is everything up to (not including) the first `/` after `://`; the object
//! path is the rest, so that root and path always concatenate back to the
//! original location. An empty path still addresses the backend's root.

use vstd::prelude::*;
use vstd::string::StrSliceExecFns;

verus! {

/// Index of the first occurrence of `c` in `s` at or after `i`, or `-1`.
pub open spec fn first_at_from(s: Seq<char>, c: char, i: int) -> int
    decreases s.len() - i,
{
    if i < 0 || i >= s.len() {
        -1
    } else if s[i] == c {
        i
    } else {
        first_at_from(s, c, i + 1)
    }
}

/// Characterizes [`first_at_from`]: the result is the least index in
/// `[i, s.len())` holding `c`, or `-1` when there is none.
pub proof fn lemma_first_at_from(s: Seq<char>, c: char, i: int)
    requires
        0 <= i <= s.len(),
    ensures
        ({
            let r = first_at_from(s, c, i);
            &&& r == -1 ==> forall|j: int| i <= j < s.len() ==> s[j] != c
            &&& r != -1 ==> i <= r < s.len() && s[r] == c && (forall|j: int|
                i <= j < r ==> s[j] != c)
        }),
    decreases s.len() - i,
{
    if i < s.len() && s[i] != c {
        lemma_first_at_from(s, c, i + 1);
    }
}

/// Skipping a prefix free of `c` does not change the first occurrence.
pub proof fn lemma_first_at_from_skip(s: Seq<char>, c: char, i: int, k: int)
    requires
        0 <= i <= k <= s.len(),
        forall|j: int| i <= j < k ==> s[j] != c,
    ensures
        first_at_from(s, c, i) == first_at_from(s, c, k),
    decreases k - i,
{
    if i < k {
        lemma_first_at_from_skip(s, c, i + 1, k);
    }
}

/// The first occurrence within the suffix part of a concatenation.
proof fn lemma_first_at_from_offset(s1: Seq<char>, s2: Seq<char>, c: char, k: int)
    requires
        0 <= k <= s2.len(),
    ensures
        ({
            let r2 = first_at_from(s2, c, k);
            first_at_from(s1 + s2, c, s1.len() + k) == (if r2 == -1 {
                -1int
            } else {
                s1.len() + r2
            })
        }),
    decreases s2.len() - k,
{
    if k < s2.len() {
        assert((s1 + s2)[s1.len() + k] == s2[k]);
        if s2[k] != c {
            lemma_first_at_from_offset(s1, s2, c, k + 1);
        }
    }
}

/// The first occurrence in a concatenation: the hit in the prefix wins, and
/// otherwise the search continues into the suffix.
pub proof fn lemma_first_at_from_concat(s1: Seq<char>, s2: Seq<char>, c: char, i: int)
    requires
        0 <= i <= s1.len(),
    ensures
        ({
            let r1 = first_at_from(s1, c, i);
            let r2 = first_at_from(s2, c, 0);
            first_at_from(s1 + s2, c, i) == (if r1 != -1 {
                r1
            } else if r2 == -1 {
                -1int
            } else {
                s1.len() + r2
            })
        }),
    decreases s1.len() - i,
{
    if i < s1.len() {
        assert((s1 + s2)[i] == s1[i]);
        if s1[i] != c {
            lemma_first_at_from_concat(s1, s2, c, i + 1);
        }
    } else {
        lemma_first_at_from_offset(s1, s2, c, 0);
    }
}

/// Index of the `:` ending the scheme, or `-1` when the string has none.
pub open spec fn scheme_end(s: Seq<char>) -> int {
    first_at_from(s, ':', 0)
}

/// The location starts with `scheme://` for a nonempty scheme.
pub open spec fn has_uri_root(s: Seq<char>) -> bool {
    let c = scheme_end(s);
    &&& 1 <= c
    &&& c + 3 <= s.len()
    &&& s[c + 1] == '/'
    &&& s[c + 2] == '/'
}

/// Where the backend root ends: at the first `/` after `scheme://`, or at
/// the end of the string when the location has no path.
pub open spec fn root_end(s: Seq<char>) -> int {
    let c = scheme_end(s);
    let slash = first_at_from(s, '/', c + 3);
    if slash == -1 {
        s.len() as int
    } else {
        slash
    }
}

/// The backend root: scheme and authority, with an empty path component.
pub open spec fn uri_root(s: Seq<char>) -> Seq<char> {
    s.subrange(0, root_end(s))
}

/// The object path: everything from the root's end on (possibly empty).
pub open spec fn uri_path(s: Seq<char>) -> Seq<char> {
    s.subrange(root_end(s), s.len() as int)
}

/// The scheme position of a root: the characters before the first `:`, or
/// the whole string when it has no `:` (a bare scheme or profile name).
pub open spec fn uri_scheme(s: Seq<char>) -> Seq<char> {
    if scheme_end(s) == -1 {
        s
    } else {
        s.subrange(0, scheme_end(s))
    }
}

/// A string acceptable as a backend root: either full URI form or a bare
/// name without any `:`.
pub open spec fn root_well_formed(s: Seq<char>) -> bool {
    has_uri_root(s) || scheme_end(s) == -1
}

/// A backend root in URI form whose own path component is empty, as
/// produced by [`parse_uri`].
pub open spec fn is_backend_root(s: Seq<char>) -> bool {
    has_uri_root(s) && root_end(s) == s.len()
}

/// First occurrence of `c` in `s` at or after `from`, as an index.
pub fn find_char_from(s: &str, c: char, from: usize) -> (r: Option<usize>)
    requires
        from <= s@.len(),
    ensures
        match r {
            Some(i) => i as int == first_at_from(s@, c, from as int),
            None => first_at_from(s@, c, from as int) == -1,
        },
{
    let n = s.unicode_len();
    let mut k = from;
    while k < n
        invariant
            from <= k <= n,
            n == s@.len(),
            forall|j: int| from <= j < k ==> s@[j] != c,
        decreases n - k,
    {
        if s.get_char(k) == c {
            proof {
                lemma_first_at_from_skip(s@, c, from as int, k as int);
            }
            return Some(k);
        }
        k += 1;
    }
    proof {
        lemma_first_at_from_skip(s@, c, from as int, n as int);
    }
    None
}

/// Split a location in URI form into its backend root and object path.
///
/// Returns `None` exactly when the location is not in URI form (no
/// `scheme://` with a nonempty scheme); the root keeps an empty path
/// component, and root and path concatenate back to the location.
pub fn parse_uri(location: &str) -> (r: Option<(String, String)>)
    ensures
        match r {
            Some(p) => {
                &&& has_uri_root(location@)
                &&& p.0@ == uri_root(location@)
                &&& p.1@ == uri_path(location@)
            },
            None => !has_uri_root(location@),
        },
{
    let n = location.unicode_len();
    let colon = match find_char_from(location, ':', 0) {
        Some(c) => c,
        None => {
            return None;
        },
    };
    proof {
        lemma_first_at_from(location@, ':', 0);
    }
    if colon < 1 || n - colon < 3 {
        return None;
    }
    if location.get_char(colon + 1) != '/' || location.get_char(colon + 2) != '/' {
        return None;
    }
    let j = match find_char_from(location, '/', colon + 3) {
        Some(j) => j,
        None => n,
    };
    proof {
        lemma_first_at_from(location@, '/', colon + 3);
        assert(j as int == root_end(location@));
    }
    let root = location.substring_char(0, j);
    let path = location.substring_char(j, n);
    Some((root.to_owned(), path.to_owned()))
}

/// The scheme position of a root string: the prefix before the first `:`,
/// or the whole string when it has none.
pub fn scheme_of(root: &str) -> (r: String)
    ensures
        r@ == uri_scheme(root@),
{
    let n = root.unicode_len();
    match find_char_from(root, ':', 0) {
        Some(c) => {
            proof {
                lemma_first_at_from(root@, ':', 0);
            }
            root.substring_char(0, c).to_owned()
        },
        None => root.to_owned(),
    }
}

/// Whether the location starts with `scheme://` for a nonempty scheme.
pub fn check_has_uri_root(s: &str) -> (r: bool)
    ensures
        r == has_uri_root(s@),
{
    match find_char_from(s, ':', 0) {
        None => false,
        Some(colon) => {
            let n = s.unicode_len();
            proof {
                lemma_first_at_from(s@, ':', 0);
            }
            colon >= 1 && n - colon >= 3 && location_slash_at(s, colon + 1) && location_slash_at(
                s,
                colon + 2,
            )
        },
    }
}

/// Whether `root` is acceptable as a backend root: URI form or a bare name.
pub fn check_root_well_formed(root: &str) -> (r: bool)
    ensures
        r == root_well_formed(root@),
{
    match find_char_from(root, ':', 0) {
        None => true,
        Some(_) => check_has_uri_root(root),
    }
}

/// Whether the character at `i` is `/`.
fn location_slash_at(s: &str, i: usize) -> (r: bool)
    requires
        i < s@.len(),
    ensures
        r == (s@[i as int] == '/'),
{
    s.get_char(i) == '/'
}

/// Splitting is a left inverse of reconstruction: a backend root (in URI
/// form, with an empty path component) concatenated with a path that is
/// empty or starts with `/` parses back to exactly that root and path.
pub proof fn lemma_parse_round_trip(root: Seq<char>, path: Seq<char>)
    requires
        is_backend_root(root),
        path.len() == 0 || path[0] == '/',
    ensures
        has_uri_root(root + path),
        uri_root(root + path) == root,
        uri_path(root + path) == path,
{
    let s = root + path;
    let c = scheme_end(root);
    lemma_first_at_from(root, ':', 0);
    lemma_first_at_from_concat(root, path, ':', 0);
    assert(scheme_end(s) == c);
    assert(s[c + 1] == root[c + 1]);
    assert(s[c + 2] == root[c + 2]);
    assert(has_uri_root(s));
    lemma_first_at_from_concat2(root, path, c);
    assert(root_end(s) == root.len());
    assert(uri_root(s) =~= root);
    assert(uri_path(s) =~= path);
}

/// Helper for the round trip: the first `/` after the scheme marker of a
/// root with an empty path component falls exactly at the path's start.
proof fn lemma_first_at_from_concat2(root: Seq<char>, path: Seq<char>, c: int)
    requires
        is_backend_root(root),
        c == scheme_end(root),
        path.len() == 0 || path[0] == '/',
    ensures
        root_end(root + path) == root.len(),
{
    let s = root + path;
    lemma_first_at_from(root, ':', 0);
    lemma_first_at_from_concat(root, path, ':', 0);
    assert(scheme_end(s) == c);
    assert(first_at_from(root, '/', c + 3) == -1) by {
        if first_at_from(root, '/', c + 3) != -1 {
            lemma_first_at_from(root, '/', c + 3);
        }
    }
    lemma_first_at_from_concat(root, path, '/', c + 3);
    if path.len() == 0 {
        lemma_first_at_from(path, '/', 0);
        assert(s =~= root);
    } else {
        assert(first_at_from(path, '/', 0) == 0);
    }
}

} // verus!
