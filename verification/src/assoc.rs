//! String-keyed association lists with first-match lookup and map-style
//! update, shared by the configuration map and the profile table.

use vstd::prelude::*;

use crate::text::str_eq;

verus! {

/// First-match lookup: the value of the first entry at or after `i` whose
/// key reads as `key`, or `None`.
pub open spec fn assoc_find<V>(entries: Seq<(String, V)>, key: Seq<char>, i: int) -> Option<V>
    decreases entries.len() - i,
{
    if i < 0 || i >= entries.len() {
        None
    } else if entries[i].0@ == key {
        Some(entries[i].1)
    } else {
        assoc_find(entries, key, i + 1)
    }
}

/// All keys are pairwise distinct, so first-match lookup is the only match.
pub open spec fn assoc_wf<V>(entries: Seq<(String, V)>) -> bool {
    forall|i: int, j: int| 0 <= i < j < entries.len() ==> entries[i].0@ != entries[j].0@
}

/// Skipping a key-free prefix does not change the lookup result.
pub proof fn lemma_assoc_skip<V>(entries: Seq<(String, V)>, key: Seq<char>, a: int, b: int)
    requires
        0 <= a <= b <= entries.len(),
        forall|j: int| a <= j < b ==> entries[j].0@ != key,
    ensures
        assoc_find(entries, key, a) == assoc_find(entries, key, b),
    decreases b - a,
{
    if a < b {
        lemma_assoc_skip(entries, key, a + 1, b);
    }
}

/// Lookup misses exactly when no entry from `i` on has the key.
pub proof fn lemma_assoc_none_iff<V>(entries: Seq<(String, V)>, key: Seq<char>, i: int)
    requires
        0 <= i <= entries.len(),
    ensures
        assoc_find(entries, key, i) is None <==> (forall|j: int|
            i <= j < entries.len() ==> entries[j].0@ != key),
    decreases entries.len() - i,
{
    if i < entries.len() {
        lemma_assoc_none_iff(entries, key, i + 1);
    }
}

/// Lookup within the suffix part of a concatenation.
pub proof fn lemma_assoc_offset<V>(s1: Seq<(String, V)>, s2: Seq<(String, V)>, key: Seq<char>, k: int)
    requires
        0 <= k <= s2.len(),
    ensures
        assoc_find(s1 + s2, key, s1.len() + k) == assoc_find(s2, key, k),
    decreases s2.len() - k,
{
    if k < s2.len() {
        assert((s1 + s2)[s1.len() + k] == s2[k]);
        if s2[k].0@ != key {
            lemma_assoc_offset(s1, s2, key, k + 1);
        }
    }
}

/// Lookup in a concatenation: a hit in the prefix wins, otherwise the
/// lookup continues into the suffix.
pub proof fn lemma_assoc_concat<V>(s1: Seq<(String, V)>, s2: Seq<(String, V)>, key: Seq<char>, i: int)
    requires
        0 <= i <= s1.len(),
    ensures
        assoc_find(s1 + s2, key, i) == (match assoc_find(s1, key, i) {
            Some(v) => Some(v),
            None => assoc_find(s2, key, 0),
        }),
    decreases s1.len() - i,
{
    if i < s1.len() {
        assert((s1 + s2)[i] == s1[i]);
        if s1[i].0@ != key {
            lemma_assoc_concat(s1, s2, key, i + 1);
        }
    } else {
        lemma_assoc_offset(s1, s2, key, 0);
    }
}

/// Index of the first entry whose key reads as `key`.
pub fn assoc_index<V>(entries: &Vec<(String, V)>, key: &str) -> (r: Option<usize>)
    ensures
        match r {
            Some(i) => i < entries@.len() && entries@[i as int].0@ == key@ && (forall|j: int|
                0 <= j < i ==> entries@[j].0@ != key@),
            None => forall|j: int| 0 <= j < entries@.len() ==> entries@[j].0@ != key@,
        },
{
    let n = entries.len();
    let mut i: usize = 0;
    while i < n
        invariant
            0 <= i <= n,
            n == entries@.len(),
            forall|j: int| 0 <= j < i ==> entries@[j].0@ != key@,
        decreases n - i,
    {
        if str_eq(entries[i].0.as_str(), key) {
            return Some(i);
        }
        i += 1;
    }
    None
}

/// Borrowed first-match lookup.
pub fn assoc_get<'a, V>(entries: &'a Vec<(String, V)>, key: &str) -> (r: Option<&'a V>)
    ensures
        match r {
            Some(v) => assoc_find(entries@, key@, 0) == Some(*v),
            None => assoc_find(entries@, key@, 0) is None,
        },
{
    match assoc_index(entries, key) {
        Some(i) => {
            proof {
                lemma_assoc_skip(entries@, key@, 0, i as int);
            }
            Some(&entries[i].1)
        },
        None => {
            proof {
                lemma_assoc_none_iff(entries@, key@, 0);
            }
            None
        },
    }
}

/// Bind `key` to `value`, replacing an existing binding, and keep all other
/// bindings unchanged. Keys stay pairwise distinct.
pub fn assoc_set<V>(entries: &mut Vec<(String, V)>, key: String, value: V)
    requires
        assoc_wf(old(entries)@),
    ensures
        assoc_wf(final(entries)@),
        assoc_find(final(entries)@, key@, 0) == Some(value),
        forall|k: Seq<char>| k != key@ ==> assoc_find(final(entries)@, k, 0) == assoc_find(
            old(entries)@,
            k,
            0,
        ),
{
    let ghost orig = entries@;
    match assoc_index(entries, key.as_str()) {
        Some(i) => {
            entries.remove(i);
            proof {
                lemma_assoc_remove_match(orig, key@, i as int);
            }
        },
        None => {
            proof {
                lemma_assoc_none_iff(orig, key@, 0);
            }
        },
    }
    let ghost mid = entries@;
    entries.insert(0, (key, value));
    proof {
        assert(entries@ =~= seq![(key, value)] + mid);
        assert forall|k: Seq<char>| k != key@ implies assoc_find(entries@, k, 0) == assoc_find(
            mid,
            k,
            0,
        ) by {
            lemma_assoc_offset(seq![(key, value)], mid, k, 0);
        }
        lemma_assoc_none_iff(mid, key@, 0);
        assert forall|a: int, b: int|
            0 <= a < b < entries@.len() implies entries@[a].0@ != entries@[b].0@ by {
            if a > 0 {
                assert(entries@[a] == mid[a - 1]);
                assert(entries@[b] == mid[b - 1]);
            }
        }
    }
}

/// Removing the first (and, with distinct keys, only) match erases that key
/// and leaves every other key's binding unchanged.
pub proof fn lemma_assoc_remove_match<V>(s: Seq<(String, V)>, key: Seq<char>, i: int)
    requires
        assoc_wf(s),
        0 <= i < s.len(),
        s[i].0@ == key,
    ensures
        assoc_wf(s.remove(i)),
        assoc_find(s.remove(i), key, 0) is None,
        forall|k: Seq<char>| k != key ==> assoc_find(s.remove(i), k, 0) == assoc_find(s, k, 0),
{
    let a = s.subrange(0, i);
    let e = s[i];
    let b = s.subrange(i + 1, s.len() as int);
    assert(s.remove(i) =~= a + b);
    assert(s =~= a + (seq![e] + b));
    assert forall|a2: int, b2: int|
        0 <= a2 < b2 < s.remove(i).len() implies s.remove(i)[a2].0@ != s.remove(i)[b2].0@ by {
        let x = if a2 < i {
            a2
        } else {
            a2 + 1
        };
        let y = if b2 < i {
            b2
        } else {
            b2 + 1
        };
        assert(s.remove(i)[a2] == s[x]);
        assert(s.remove(i)[b2] == s[y]);
    }
    assert(assoc_find(s.remove(i), key, 0) is None) by {
        lemma_assoc_concat(a, b, key, 0);
        assert(forall|j: int| 0 <= j < a.len() ==> a[j].0@ != key);
        assert(forall|j: int| 0 <= j < b.len() ==> b[j].0@ != key);
        lemma_assoc_none_iff(a, key, 0);
        lemma_assoc_none_iff(b, key, 0);
    }
    assert forall|k: Seq<char>| k != key implies assoc_find(s.remove(i), k, 0) == assoc_find(
        s,
        k,
        0,
    ) by {
        lemma_assoc_concat(a, b, k, 0);
        lemma_assoc_concat(a, seq![e] + b, k, 0);
        lemma_assoc_offset(seq![e], b, k, 0);
    }
}

} // verus!
